use vstd::prelude::*;
use crate::error::ProcessError;
use crate::state::{read_str, str_end, str_fits, str_val};

verus! {

/// The payload of a reply instruction.
pub struct ReplyPayload {
    pub reply: Vec<u8>,
}

/// An operation, decoded from instruction bytes.
pub enum StudentIntroInstruction {
    AddStudentIntro { name: Vec<u8>, msg: Vec<u8> },
    UpdateStudentIntro { name: Vec<u8>, msg: Vec<u8> },
    AddReply { reply: Vec<u8> },
    InitializeMint,
}

/// What a decoded operation holds.
pub enum InstructionSpec {
    AddStudentIntro { name: Seq<u8>, msg: Seq<u8> },
    UpdateStudentIntro { name: Seq<u8>, msg: Seq<u8> },
    AddReply { reply: Seq<u8> },
    InitializeMint,
}

impl View for StudentIntroInstruction {
    type V = InstructionSpec;

    open spec fn view(&self) -> InstructionSpec {
        match self {
            StudentIntroInstruction::AddStudentIntro { name, msg } => InstructionSpec::AddStudentIntro {
                name: name@,
                msg: msg@,
            },
            StudentIntroInstruction::UpdateStudentIntro { name, msg } => InstructionSpec::UpdateStudentIntro {
                name: name@,
                msg: msg@,
            },
            StudentIntroInstruction::AddReply { reply } => InstructionSpec::AddReply { reply: reply@ },
            StudentIntroInstruction::InitializeMint => InstructionSpec::InitializeMint,
        }
    }
}

/// Two length-prefixed strings fill `s` from `pos` to its end.
pub open spec fn two_strs_fill(s: Seq<u8>, pos: int) -> bool {
    str_fits(s, pos) && str_fits(s, str_end(s, pos)) && str_end(s, str_end(s, pos)) == s.len()
}

/// One length-prefixed string fills `s` from `pos` to its end.
pub open spec fn one_str_fills(s: Seq<u8>, pos: int) -> bool {
    str_fits(s, pos) && str_end(s, pos) == s.len()
}

/// The operation that `s` encodes: a tag byte, then its payload, which must
/// be consumed exactly.
pub open spec fn unpacked(s: Seq<u8>) -> Option<InstructionSpec> {
    if s.len() == 0 {
        None
    } else if s[0] == 0 || s[0] == 1 {
        if two_strs_fill(s, 1) {
            let name = str_val(s, 1);
            let msg = str_val(s, str_end(s, 1));
            if s[0] == 0 {
                Some(InstructionSpec::AddStudentIntro { name, msg })
            } else {
                Some(InstructionSpec::UpdateStudentIntro { name, msg })
            }
        } else {
            None
        }
    } else if s[0] == 2 {
        if one_str_fills(s, 1) {
            Some(InstructionSpec::AddReply { reply: str_val(s, 1) })
        } else {
            None
        }
    } else if s[0] == 3 {
        Some(InstructionSpec::InitializeMint)
    } else {
        None
    }
}

impl ReplyPayload {
    /// Reads a reply payload that fills `data` from `pos` to its end.
    pub fn read(data: &Vec<u8>, pos: usize) -> (r: Option<ReplyPayload>)
        ensures
            match r {
                Some(p) => one_str_fills(data@, pos as int) && p.reply@ == str_val(data@, pos as int),
                None => !one_str_fills(data@, pos as int),
            },
    {
        match read_str(data, pos) {
            Some((reply, e)) => {
                if e == data.len() {
                    Some(ReplyPayload { reply })
                } else {
                    None
                }
            },
            None => None,
        }
    }
}

impl StudentIntroInstruction {
    /// Decodes instruction bytes; anything malformed is
    /// `InvalidInstructionData`.
    pub fn unpack(data: &Vec<u8>) -> (r: Result<StudentIntroInstruction, ProcessError>)
        ensures
            match r {
                Ok(i) => unpacked(data@) == Some(i@),
                Err(e) => unpacked(data@).is_none() && e == ProcessError::InvalidInstructionData,
            },
    {
        if data.len() == 0 {
            return Err(ProcessError::InvalidInstructionData);
        }
        let variant = data[0];
        if variant == 0 || variant == 1 {
            match read_str(data, 1) {
                None => Err(ProcessError::InvalidInstructionData),
                Some((name, e)) => match read_str(data, e) {
                    None => Err(ProcessError::InvalidInstructionData),
                    Some((msg, end)) => {
                        if end != data.len() {
                            Err(ProcessError::InvalidInstructionData)
                        } else if variant == 0 {
                            Ok(StudentIntroInstruction::AddStudentIntro { name, msg })
                        } else {
                            Ok(StudentIntroInstruction::UpdateStudentIntro { name, msg })
                        }
                    },
                },
            }
        } else if variant == 2 {
            match ReplyPayload::read(data, 1) {
                None => Err(ProcessError::InvalidInstructionData),
                Some(p) => Ok(StudentIntroInstruction::AddReply { reply: p.reply }),
            }
        } else if variant == 3 {
            Ok(StudentIntroInstruction::InitializeMint)
        } else {
            Err(ProcessError::InvalidInstructionData)
        }
    }
}

} // verus!
