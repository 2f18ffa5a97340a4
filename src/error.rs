use vstd::prelude::*;

verus! {

/// Failures specific to this program.
#[derive(Clone, Copy, Debug, PartialEq, Eq, Structural)]
pub enum StudentIntroError {
    UninitializedAccount,
    InvalidDataLength,
    InvalidPda,
    InvalidStudentName,
    IncorrectAccountPassed,
}

/// Every way an operation can be refused.
#[derive(Clone, Copy, Debug, PartialEq, Eq, Structural)]
pub enum ProcessError {
    MissingRequiredSignature,
    IllegalOwner,
    AccountAlreadyInitialized,
    InvalidInstructionData,
    NotEnoughAccountKeys,
    DecodeError,
    DerivationExhausted,
    ArithmeticOverflow,
    Custom(StudentIntroError),
}

impl From<StudentIntroError> for ProcessError {
    fn from(e: StudentIntroError) -> (r: ProcessError)
        ensures
            r == ProcessError::Custom(e),
    {
        ProcessError::Custom(e)
    }
}

impl vstd::std_specs::convert::FromSpecImpl<StudentIntroError> for ProcessError {
    open spec fn obeys_from_spec() -> bool {
        true
    }

    open spec fn from_spec(e: StudentIntroError) -> ProcessError {
        ProcessError::Custom(e)
    }
}

impl StudentIntroError {
    /// The numeric code under which the runtime reports this error.
    pub fn code(&self) -> (r: u32)
        ensures
            r == match *self {
                StudentIntroError::UninitializedAccount => 0u32,
                StudentIntroError::InvalidDataLength => 1u32,
                StudentIntroError::InvalidPda => 2u32,
                StudentIntroError::InvalidStudentName => 3u32,
                StudentIntroError::IncorrectAccountPassed => 4u32,
            },
    {
        match *self {
            StudentIntroError::UninitializedAccount => 0,
            StudentIntroError::InvalidDataLength => 1,
            StudentIntroError::InvalidPda => 2,
            StudentIntroError::InvalidStudentName => 3,
            StudentIntroError::IncorrectAccountPassed => 4,
        }
    }
}

} // verus!
