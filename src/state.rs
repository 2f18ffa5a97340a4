use vstd::prelude::*;
use crate::bytes::{
    copy_range, le32, le64, lemma_le32_round_trip, lemma_le64_round_trip, push_all, push_le32, push_le64,
    read_le32, read_le64, read_u32_at, read_u64_at,
};
use crate::key::Pubkey;

verus! {

/// Whether the bytes are well-formed UTF-8.
pub uninterp spec fn utf8_valid(b: Seq<u8>) -> bool;

/// Relies on `std::str::from_utf8`: succeeds exactly on well-formed UTF-8.
#[verifier::external_body]
pub(crate) fn is_utf8(b: &Vec<u8>) -> (r: bool)
    ensures
        r == utf8_valid(b@),
{
    std::str::from_utf8(b.as_slice()).is_ok()
}

/// Tag that opens an introduction record: "intro".
pub open spec fn intro_tag() -> Seq<u8> {
    seq![105u8, 110u8, 116u8, 114u8, 111u8]
}

/// Tag that opens a reply counter: "counter".
pub open spec fn counter_tag() -> Seq<u8> {
    seq![99u8, 111u8, 117u8, 110u8, 116u8, 101u8, 114u8]
}

/// Tag that opens a reply record: "reply".
pub open spec fn reply_tag() -> Seq<u8> {
    seq![114u8, 101u8, 112u8, 108u8, 121u8]
}

/// A length-prefixed byte string.
pub open spec fn enc_str(s: Seq<u8>) -> Seq<u8> {
    le32(s.len() as u32) + s
}

pub open spec fn enc_bool(b: bool) -> Seq<u8> {
    if b { seq![1u8] } else { seq![0u8] }
}

/// What an introduction record holds.
pub struct IntroSpec {
    pub is_initialized: bool,
    pub identity: Seq<u8>,
    pub name: Seq<u8>,
    pub msg: Seq<u8>,
}

/// What a reply record holds.
pub struct ReplySpec {
    pub is_initialized: bool,
    pub intro: Seq<u8>,
    pub replier: Seq<u8>,
    pub reply: Seq<u8>,
    pub count: u64,
}

/// The introduction a student publishes, stored at the address derived from
/// the student's key and name.
pub struct StudentIntroAccountState {
    pub is_initialized: bool,
    pub identity: Pubkey,
    pub name: Vec<u8>,
    pub msg: Vec<u8>,
}

/// How many replies an introduction has received.
#[derive(Clone, Copy, Debug, PartialEq, Eq, Structural)]
pub struct StudentIntroReplyCounter {
    pub is_initialized: bool,
    pub counter: u64,
}

/// One reply to an introduction, stored at the address derived from the
/// introduction's address and the reply's sequence number.
pub struct StudentIntroReply {
    pub is_initialized: bool,
    pub intro: Pubkey,
    pub replier: Pubkey,
    pub reply: Vec<u8>,
    pub count: u64,
}

impl View for StudentIntroAccountState {
    type V = IntroSpec;

    open spec fn view(&self) -> IntroSpec {
        IntroSpec { is_initialized: self.is_initialized, identity: self.identity@, name: self.name@, msg: self.msg@ }
    }
}

impl View for StudentIntroReply {
    type V = ReplySpec;

    open spec fn view(&self) -> ReplySpec {
        ReplySpec {
            is_initialized: self.is_initialized,
            intro: self.intro@,
            replier: self.replier@,
            reply: self.reply@,
            count: self.count,
        }
    }
}

/// The largest size of an introduction account.
pub const MAX_INTRO_SIZE: usize = 1000;

/// Bytes of an introduction record with a name and a message of these lengths.
pub open spec fn intro_size(name_len: int, msg_len: int) -> int {
    (4 + 5) + 1 + 32 + (4 + name_len) + (4 + msg_len)
}

/// Bytes of a reply record with a reply of this length.
pub open spec fn reply_size(reply_len: int) -> int {
    (4 + 5) + 1 + 32 + 32 + (4 + reply_len) + 8
}

pub open spec fn intro_bytes(r: IntroSpec) -> Seq<u8> {
    enc_str(intro_tag()) + enc_bool(r.is_initialized) + r.identity + enc_str(r.name) + enc_str(r.msg)
}

pub open spec fn counter_bytes(c: StudentIntroReplyCounter) -> Seq<u8> {
    enc_str(counter_tag()) + enc_bool(c.is_initialized) + le64(c.counter)
}

pub open spec fn reply_bytes(r: ReplySpec) -> Seq<u8> {
    enc_str(reply_tag()) + enc_bool(r.is_initialized) + r.intro + r.replier + enc_str(r.reply) + le64(r.count)
}

/// A length-prefixed UTF-8 string starts at `pos`.
pub open spec fn str_fits(s: Seq<u8>, pos: int) -> bool {
    0 <= pos && pos + 4 <= s.len() && pos + 4 + read_le32(s, pos) as int <= s.len()
        && utf8_valid(s.subrange(pos + 4, pos + 4 + read_le32(s, pos) as int))
}

pub open spec fn str_end(s: Seq<u8>, pos: int) -> int {
    pos + 4 + read_le32(s, pos) as int
}

pub open spec fn str_val(s: Seq<u8>, pos: int) -> Seq<u8> {
    s.subrange(pos + 4, str_end(s, pos))
}

/// `s` opens with the length-prefixed `tag`.
pub open spec fn tag_fits(s: Seq<u8>, tag: Seq<u8>) -> bool {
    4 + tag.len() <= s.len() && s.subrange(0, 4 + tag.len() as int) == enc_str(tag)
}

/// A flag byte, 0 or 1, stands at `pos`.
pub open spec fn flag_fits(s: Seq<u8>, pos: int) -> bool {
    0 <= pos < s.len() && s[pos] <= 1
}

/// The introduction record at the start of `s`; trailing bytes are ignored.
pub open spec fn intro_decoded(s: Seq<u8>) -> Option<IntroSpec> {
    let p: int = 9;
    let q = p + 33;
    if tag_fits(s, intro_tag()) && flag_fits(s, p) && q <= s.len() && str_fits(s, q) && str_fits(s, str_end(s, q)) {
        Some(IntroSpec {
            is_initialized: s[p] == 1,
            identity: s.subrange(p + 1, q),
            name: str_val(s, q),
            msg: str_val(s, str_end(s, q)),
        })
    } else {
        None
    }
}

/// The reply counter at the start of `s`; trailing bytes are ignored.
pub open spec fn counter_decoded(s: Seq<u8>) -> Option<StudentIntroReplyCounter> {
    let p: int = 11;
    if tag_fits(s, counter_tag()) && flag_fits(s, p) && p + 9 <= s.len() {
        Some(StudentIntroReplyCounter { is_initialized: s[p] == 1, counter: read_le64(s, p + 1) })
    } else {
        None
    }
}

/// The reply record at the start of `s`; trailing bytes are ignored.
pub open spec fn reply_decoded(s: Seq<u8>) -> Option<ReplySpec> {
    let p: int = 9;
    let q = p + 65;
    if tag_fits(s, reply_tag()) && flag_fits(s, p) && q <= s.len() && str_fits(s, q) && str_end(s, q) + 8 <= s.len() {
        Some(ReplySpec {
            is_initialized: s[p] == 1,
            intro: s.subrange(p + 1, p + 33),
            replier: s.subrange(p + 33, q),
            reply: str_val(s, q),
            count: read_le64(s, str_end(s, q)),
        })
    } else {
        None
    }
}

/// A record's text fields can be written and read back.
pub open spec fn text_ok(t: Seq<u8>) -> bool {
    t.len() <= u32::MAX && utf8_valid(t)
}

pub open spec fn intro_opt_view(r: Option<StudentIntroAccountState>) -> Option<IntroSpec> {
    match r {
        Some(v) => Some(v@),
        None => None,
    }
}

pub open spec fn reply_opt_view(r: Option<StudentIntroReply>) -> Option<ReplySpec> {
    match r {
        Some(v) => Some(v@),
        None => None,
    }
}

/// The number of bytes an introduction record takes.
pub open spec fn intro_len(r: IntroSpec) -> int {
    intro_size(r.name.len() as int, r.msg.len() as int)
}

impl StudentIntroAccountState {
    pub fn is_initialized(&self) -> (r: bool)
        ensures
            r == self.is_initialized,
    {
        self.is_initialized
    }

    /// Bytes that the record takes with this name and message.
    pub fn get_account_size(name: &Vec<u8>, msg: &Vec<u8>) -> (r: usize)
        requires
            intro_size(name@.len() as int, msg@.len() as int) <= usize::MAX,
        ensures
            r == intro_size(name@.len() as int, msg@.len() as int),
    {
        (4 + 5) + 1 + 32 + (4 + name.len()) + (4 + msg.len())
    }

    pub fn encode(&self) -> (out: Vec<u8>)
        requires
            self.name@.len() <= u32::MAX,
            self.msg@.len() <= u32::MAX,
        ensures
            out@ == intro_bytes(self@),
    {
        let mut out: Vec<u8> = Vec::new();
        let tag: Vec<u8> = vec![105u8, 110u8, 116u8, 114u8, 111u8];
        assert(tag@ =~= intro_tag());
        push_str(&mut out, &tag);
        push_flag(&mut out, self.is_initialized);
        push_key(&mut out, &self.identity);
        push_str(&mut out, &self.name);
        push_str(&mut out, &self.msg);
        out
    }

    /// Reads the record at the start of `data`, ignoring what follows it.
    pub fn decode(data: &Vec<u8>) -> (r: Option<StudentIntroAccountState>)
        ensures
            intro_opt_view(r) == intro_decoded(data@),
    {
        let tag: Vec<u8> = vec![105u8, 110u8, 116u8, 114u8, 111u8];
        assert(tag@ =~= intro_tag());
        if !has_tag(data, &tag) || !flag_at(data, 9) || data.len() < 42 {
            return None;
        }
        let identity = key_at(data, 10);
        match read_str(data, 42) {
            None => None,
            Some((name, e)) => match read_str(data, e) {
                None => None,
                Some((msg, _)) => Some(StudentIntroAccountState { is_initialized: data[9] == 1, identity, name, msg }),
            },
        }
    }
}

impl StudentIntroReplyCounter {
    pub fn is_initialized(&self) -> (r: bool)
        ensures
            r == self.is_initialized,
    {
        self.is_initialized
    }

    /// Bytes that a counter takes.
    pub const SIZE: usize = (4 + 7) + 1 + 8;

    pub fn encode(&self) -> (out: Vec<u8>)
        ensures
            out@ == counter_bytes(*self),
    {
        let mut out: Vec<u8> = Vec::new();
        let tag: Vec<u8> = vec![99u8, 111u8, 117u8, 110u8, 116u8, 101u8, 114u8];
        assert(tag@ =~= counter_tag());
        push_str(&mut out, &tag);
        push_flag(&mut out, self.is_initialized);
        push_le64(&mut out, self.counter);
        out
    }

    /// Reads the counter at the start of `data`, ignoring what follows it.
    pub fn decode(data: &Vec<u8>) -> (r: Option<StudentIntroReplyCounter>)
        ensures
            r == counter_decoded(data@),
    {
        let tag: Vec<u8> = vec![99u8, 111u8, 117u8, 110u8, 116u8, 101u8, 114u8];
        assert(tag@ =~= counter_tag());
        if !has_tag(data, &tag) || !flag_at(data, 11) || data.len() < 20 {
            return None;
        }
        Some(StudentIntroReplyCounter { is_initialized: data[11] == 1, counter: read_u64_at(data, 12) })
    }
}

impl StudentIntroReply {
    pub fn is_initialized(&self) -> (r: bool)
        ensures
            r == self.is_initialized,
    {
        self.is_initialized
    }

    /// Bytes that the record takes with this reply.
    pub fn get_account_size(reply: &Vec<u8>) -> (r: usize)
        requires
            reply_size(reply@.len() as int) <= usize::MAX,
        ensures
            r == reply_size(reply@.len() as int),
    {
        (4 + 5) + 1 + 32 + 32 + (4 + reply.len()) + 8
    }

    pub fn encode(&self) -> (out: Vec<u8>)
        requires
            self.reply@.len() <= u32::MAX,
        ensures
            out@ == reply_bytes(self@),
    {
        let mut out: Vec<u8> = Vec::new();
        let tag: Vec<u8> = vec![114u8, 101u8, 112u8, 108u8, 121u8];
        assert(tag@ =~= reply_tag());
        push_str(&mut out, &tag);
        push_flag(&mut out, self.is_initialized);
        push_key(&mut out, &self.intro);
        push_key(&mut out, &self.replier);
        push_str(&mut out, &self.reply);
        push_le64(&mut out, self.count);
        out
    }

    /// Reads the record at the start of `data`, ignoring what follows it.
    pub fn decode(data: &Vec<u8>) -> (r: Option<StudentIntroReply>)
        ensures
            reply_opt_view(r) == reply_decoded(data@),
    {
        let tag: Vec<u8> = vec![114u8, 101u8, 112u8, 108u8, 121u8];
        assert(tag@ =~= reply_tag());
        if !has_tag(data, &tag) || !flag_at(data, 9) || data.len() < 74 {
            return None;
        }
        let intro = key_at(data, 10);
        let replier = key_at(data, 42);
        match read_str(data, 74) {
            None => None,
            Some((reply, e)) => {
                if e > data.len() || data.len() - e < 8 {
                    None
                } else {
                    let count = read_u64_at(data, e);
                    Some(StudentIntroReply { is_initialized: data[9] == 1, intro, replier, reply, count })
                }
            },
        }
    }
}

fn push_str(out: &mut Vec<u8>, s: &Vec<u8>)
    requires
        s@.len() <= u32::MAX,
    ensures
        final(out)@ == old(out)@ + enc_str(s@),
{
    push_le32(out, s.len() as u32);
    push_all(out, s);
    assert(final(out)@ =~= old(out)@ + enc_str(s@));
}

fn push_flag(out: &mut Vec<u8>, b: bool)
    ensures
        final(out)@ == old(out)@ + enc_bool(b),
{
    if b {
        out.push(1u8);
    } else {
        out.push(0u8);
    }
    assert(final(out)@ =~= old(out)@ + enc_bool(b));
}

pub(crate) fn push_key(out: &mut Vec<u8>, k: &Pubkey)
    ensures
        final(out)@ == old(out)@ + k@,
{
    let ghost start = out@;
    let mut i: usize = 0;
    while i < 32
        invariant
            i <= 32,
            k@.len() == 32,
            out@ =~= start + k@.subrange(0, i as int),
        decreases 32 - i,
    {
        out.push(k.bytes[i]);
        i = i + 1;
    }
    assert(k@.subrange(0, 32) =~= k@);
}

fn key_at(s: &Vec<u8>, pos: usize) -> (r: Pubkey)
    requires
        pos + 32 <= s@.len(),
    ensures
        r@ == s@.subrange(pos as int, pos + 32),
{
    let len: usize = s.len();
    let mut bytes: [u8; 32] = [0u8; 32];
    let mut i: usize = 0;
    while i < 32
        invariant
            i <= 32,
            len == s@.len(),
            pos + 32 <= s@.len(),
            forall|j: int| 0 <= j < i ==> bytes@[j] == s@[pos + j],
        decreases 32 - i,
    {
        bytes[i] = s[pos + i];
        i = i + 1;
    }
    let r = Pubkey { bytes };
    assert(r@ =~= s@.subrange(pos as int, pos + 32));
    r
}

fn flag_at(s: &Vec<u8>, pos: usize) -> (r: bool)
    ensures
        r == flag_fits(s@, pos as int),
{
    pos < s.len() && s[pos] <= 1
}

fn has_tag(s: &Vec<u8>, tag: &Vec<u8>) -> (r: bool)
    requires
        tag@.len() <= 16,
    ensures
        r == tag_fits(s@, tag@),
{
    let mut enc: Vec<u8> = Vec::new();
    push_str(&mut enc, tag);
    if s.len() < enc.len() {
        return false;
    }
    let mut i: usize = 0;
    while i < enc.len()
        invariant
            enc@ == enc_str(tag@),
            enc@.len() <= s@.len(),
            i <= enc@.len(),
            forall|j: int| 0 <= j < i ==> s@[j] == enc@[j],
        decreases enc@.len() - i,
    {
        if s[i] != enc[i] {
            assert(s@.subrange(0, enc@.len() as int)[i as int] != enc@[i as int]);
            return false;
        }
        i = i + 1;
    }
    assert(s@.subrange(0, enc@.len() as int) =~= enc@);
    true
}

pub(crate) fn read_str(s: &Vec<u8>, pos: usize) -> (r: Option<(Vec<u8>, usize)>)
    ensures
        match r {
            Some((v, e)) => str_fits(s@, pos as int) && v@ == str_val(s@, pos as int) && e == str_end(s@, pos as int),
            None => !str_fits(s@, pos as int),
        },
{
    if pos > s.len() || s.len() - pos < 4 {
        return None;
    }
    let n = read_u32_at(s, pos);
    let len: usize = s.len();
    if n as usize > len - pos - 4 {
        return None;
    }
    let end = pos + 4 + n as usize;
    let v = copy_range(s, pos + 4, end);
    if !is_utf8(&v) {
        return None;
    }
    Some((v, end))
}

/// Encoding a length-prefixed string and reading it back at `pos` gives the
/// string and the position right after it.
proof fn lemma_str_at(s: Seq<u8>, pos: int, v: Seq<u8>)
    requires
        0 <= pos,
        text_ok(v),
        pos + 4 + v.len() <= s.len(),
        s.subrange(pos, pos + 4 + v.len()) == enc_str(v),
    ensures
        str_fits(s, pos),
        str_val(s, pos) == v,
        str_end(s, pos) == pos + 4 + v.len(),
{
    let e = enc_str(v);
    lemma_le32_round_trip(v.len() as u32);
    assert(s[pos] == e[0] && s[pos + 1] == e[1] && s[pos + 2] == e[2] && s[pos + 3] == e[3]);
    assert(read_le32(s, pos) == read_le32(le32(v.len() as u32), 0));
    assert(s.subrange(pos + 4, pos + 4 + v.len()) =~= v) by {
        assert forall|j: int| 0 <= j < v.len() implies s.subrange(pos + 4, pos + 4 + v.len())[j] == v[j] by {
            assert(s[pos + 4 + j] == e[4 + j]);
        }
    }
}

/// A record's encoding is read back as the same record, whatever follows it.
pub proof fn lemma_intro_round_trip(r: IntroSpec, t: Seq<u8>)
    requires
        r.identity.len() == 32,
        text_ok(r.name),
        text_ok(r.msg),
    ensures
        intro_decoded(intro_bytes(r) + t) == Some(r),
{
    let s = intro_bytes(r) + t;
    let q = 42int;
    let m = q + 4 + r.name.len();
    assert(s.subrange(0, 9) =~= enc_str(intro_tag()));
    assert(s.subrange(10, 42) =~= r.identity);
    assert(s.subrange(q, m) =~= enc_str(r.name));
    lemma_str_at(s, q, r.name);
    assert(s.subrange(m, m + 4 + r.msg.len()) =~= enc_str(r.msg));
    lemma_str_at(s, m, r.msg);
    assert(s[9] == enc_bool(r.is_initialized)[0]);
}

/// A counter's encoding is read back as the same counter, whatever follows it.
pub proof fn lemma_counter_round_trip(c: StudentIntroReplyCounter, t: Seq<u8>)
    ensures
        counter_decoded(counter_bytes(c) + t) == Some(c),
{
    let s = counter_bytes(c) + t;
    assert(s.subrange(0, 11) =~= enc_str(counter_tag()));
    assert(s[11] == enc_bool(c.is_initialized)[0]);
    lemma_le64_round_trip(c.counter);
    let l = le64(c.counter);
    assert(s[12] == l[0] && s[13] == l[1] && s[14] == l[2] && s[15] == l[3]);
    assert(s[16] == l[4] && s[17] == l[5] && s[18] == l[6] && s[19] == l[7]);
    assert(read_le64(s, 12) == read_le64(l, 0));
}

/// A reply's encoding is read back as the same reply, whatever follows it.
pub proof fn lemma_reply_round_trip(r: ReplySpec, t: Seq<u8>)
    requires
        r.intro.len() == 32,
        r.replier.len() == 32,
        text_ok(r.reply),
    ensures
        reply_decoded(reply_bytes(r) + t) == Some(r),
{
    let s = reply_bytes(r) + t;
    let q = 74int;
    let e = q + 4 + r.reply.len();
    assert(s.subrange(0, 9) =~= enc_str(reply_tag()));
    assert(s[9] == enc_bool(r.is_initialized)[0]);
    assert(s.subrange(10, 42) =~= r.intro);
    assert(s.subrange(42, 74) =~= r.replier);
    assert(s.subrange(q, e) =~= enc_str(r.reply));
    lemma_str_at(s, q, r.reply);
    lemma_le64_round_trip(r.count);
    let l = le64(r.count);
    assert(s[e] == l[0] && s[e + 1] == l[1] && s[e + 2] == l[2] && s[e + 3] == l[3]);
    assert(s[e + 4] == l[4] && s[e + 5] == l[5] && s[e + 6] == l[6] && s[e + 7] == l[7]);
    assert(read_le64(s, e) == read_le64(l, 0));
}

/// The size formulas give the exact length of each encoding.
pub proof fn lemma_sizes_match_encodings(r: IntroSpec, c: StudentIntroReplyCounter, p: ReplySpec)
    requires
        r.identity.len() == 32,
        p.intro.len() == 32,
        p.replier.len() == 32,
    ensures
        intro_bytes(r).len() == intro_size(r.name.len() as int, r.msg.len() as int),
        counter_bytes(c).len() == StudentIntroReplyCounter::SIZE,
        reply_bytes(p).len() == reply_size(p.reply.len() as int),
{
}

} // verus!
