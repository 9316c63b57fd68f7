use vstd::prelude::*;
use vstd::utf8::is_ascii_chars;
use vstd::array::ArrayAdditionalExecFns;

use crate::error::{Error, Result};

verus! {

broadcast use vstd::string::group_string_axioms;

/// Size of the kernel's interface-name buffer, terminator included (Linux's `IFNAMSIZ`).
pub const IF_NAME_SIZE: usize = 16;

/// Longest name the buffer can hold while keeping room for the terminator.
pub const MAX_NAME_LEN: usize = 15;

/// Flag asking for a TUN (layer 3) device.
pub const IFF_TUN: u16 = 0x0001;
/// Flag asking the kernel not to prepend packet information.
pub const IFF_NO_PI: u16 = 0x1000;
/// Flag asking for a device that can carry several queues.
pub const IFF_MULTI_QUEUE: u16 = 0x0100;
/// The one flag combination this library configures.
pub const IFF_FLAGS: u16 = IFF_TUN | IFF_NO_PI | IFF_MULTI_QUEUE;


/// A name the kernel accepts: non-empty and made of ASCII characters.
pub open spec fn valid_name(s: Seq<char>) -> bool {
    s.len() > 0 && is_ascii_chars(s)
}

/// How many characters of `s` the record keeps.
pub open spec fn kept_len(s: Seq<char>) -> int {
    if s.len() <= MAX_NAME_LEN {
        s.len() as int
    } else {
        MAX_NAME_LEN as int
    }
}

/// The name buffer built from `s`: its first `kept_len(s)` characters as
/// bytes, the rest zero.
pub open spec fn stored_name(s: Seq<char>) -> Seq<u8> {
    Seq::new(IF_NAME_SIZE as nat, |i: int| if i < kept_len(s) { s[i] as u8 } else { 0u8 })
}

/// The name held in a buffer: its bytes up to the first zero byte, as characters.
pub open spec fn name_of(b: Seq<u8>) -> Seq<char>
    decreases b.len(),
{
    if b.len() == 0 || b[0] == 0 {
        Seq::empty()
    } else {
        seq![b[0] as char] + name_of(b.drop_first())
    }
}

/// A name buffer as the kernel hands it back: terminated inside the buffer,
/// ASCII, and naming something.
pub open spec fn echo_acceptable(b: Seq<u8>) -> bool {
    &&& b.len() == IF_NAME_SIZE
    &&& b[0] != 0
    &&& b[MAX_NAME_LEN as int] == 0
    &&& forall|j: int| 0 <= j < IF_NAME_SIZE ==> #[trigger] b[j] < 128
}

/// The kernel's interface configuration record: a zero-padded name followed
/// by the flag word.
#[derive(Clone, Copy, Debug)]
pub struct IfReq {
    name: [u8; IF_NAME_SIZE],
    flags: u16,
}

impl IfReq {
    /// The name buffer.
    pub closed spec fn name_bytes_spec(&self) -> Seq<u8> {
        self.name@
    }

    /// The flag word.
    pub closed spec fn flags_spec(&self) -> u16 {
        self.flags
    }

    /// The record after taking in the kernel's echo `echo`: its name
    /// replaces this one's when acceptable; the flags stay.
    pub closed spec fn echo_applied(&self, echo: [u8; IF_NAME_SIZE]) -> IfReq {
        if echo_acceptable(echo@) {
            IfReq { name: echo, flags: self.flags }
        } else {
            *self
        }
    }

    /// A record as `new` builds it: a full-size buffer whose last byte is the
    /// terminator, holding a valid name, and the fixed flags.
    pub open spec fn wf(&self) -> bool {
        &&& self.name_bytes_spec().len() == IF_NAME_SIZE
        &&& self.name_bytes_spec()[MAX_NAME_LEN as int] == 0
        &&& forall|j: int| 0 <= j < IF_NAME_SIZE ==> #[trigger] self.name_bytes_spec()[j] < 128
        &&& self.flags_spec() == IFF_FLAGS
    }

    /// Build the record for `name_str`, keeping at most `MAX_NAME_LEN` bytes of it.
    pub fn new(name_str: &str) -> (r: Result<Self>)
        ensures
            valid_name(name_str@) <==> r is Ok,
            r matches Ok(req) ==> {
                &&& req.wf()
                &&& req.name_bytes_spec() == stored_name(name_str@)
            },
            r matches Err(e) ==> e matches Error::InvalidName { name, max_size }
                && name@ == name_str@ && max_size == IF_NAME_SIZE,
    {
        if name_str.is_empty() || !name_str.is_ascii() {
            return Err(Error::InvalidName { max_size: IF_NAME_SIZE, name: name_str.to_owned() });
        }
        let bytes = name_str.as_bytes();
        proof {
            vstd::utf8::is_ascii_chars_encode_utf8(name_str@);
        }
        let mut name = [0u8; IF_NAME_SIZE];
        let mut idx: usize = 0;
        while idx < IF_NAME_SIZE
            invariant
                0 <= idx <= IF_NAME_SIZE,
                bytes@.len() == name_str@.len(),
                forall|j: int| 0 <= j < name_str@.len() ==> name_str@[j] as u8 == bytes@[j],
                name@.len() == IF_NAME_SIZE,
                forall|j: int| 0 <= j < idx ==> name@[j] == stored_name(name_str@)[j],
                forall|j: int| idx <= j < IF_NAME_SIZE ==> name@[j] == 0,
            decreases IF_NAME_SIZE - idx,
        {
            if idx < MAX_NAME_LEN && idx < bytes.len() {
                name.set(idx, bytes[idx]);
            }
            idx = idx + 1;
        }
        let req = IfReq { name, flags: IFF_FLAGS };
        proof {
            assert(name@ =~= stored_name(name_str@));
            lemma_stored_name_ascii(name_str@);
        }
        Ok(req)
    }

    /// The name the record holds: its bytes up to the first zero byte.
    pub fn name(&self) -> (r: String)
        requires
            self.wf(),
        ensures
            r@ == name_of(self.name_bytes_spec()),
    {
        let mut out: Vec<u8> = Vec::new();
        let mut idx: usize = 0;
        while idx < IF_NAME_SIZE && self.name[idx] != 0
            invariant
                0 <= idx <= IF_NAME_SIZE,
                self.wf(),
                out@ == self.name@.take(idx as int),
                forall|j: int| 0 <= j < idx ==> self.name@[j] != 0,
            decreases IF_NAME_SIZE - idx,
        {
            out.push(self.name[idx]);
            idx = idx + 1;
            assert(out@ =~= self.name@.take(idx as int));
        }
        proof {
            lemma_name_of_upto(self.name@, idx as int);
        }
        ascii_string(out)
    }

    /// The record with the name buffer the kernel handed back from a
    /// configuration call, when that buffer holds an acceptable name; else
    /// the record unchanged. This is how a name template such as `tun%d`
    /// becomes the name the kernel chose.
    pub fn with_echo(&self, echo: [u8; IF_NAME_SIZE]) -> (r: IfReq)
        requires
            self.wf(),
        ensures
            r.wf(),
            r == self.echo_applied(echo),
            echo_acceptable(echo@) ==> r.name_bytes_spec() == echo@,
            !echo_acceptable(echo@) ==> r == *self,
    {
        if echo[0] == 0 || echo[MAX_NAME_LEN] != 0 {
            return *self;
        }
        let mut idx: usize = 0;
        while idx < IF_NAME_SIZE
            invariant
                0 <= idx <= IF_NAME_SIZE,
                self.wf(),
                echo@.len() == IF_NAME_SIZE,
                forall|j: int| 0 <= j < idx ==> echo@[j] < 128,
            decreases IF_NAME_SIZE - idx,
        {
            if echo[idx] >= 128 {
                assert(!echo_acceptable(echo@));
                return *self;
            }
            idx = idx + 1;
        }
        assert(echo_acceptable(echo@));
        IfReq { name: echo, flags: self.flags }
    }

    /// The name buffer, as handed to the kernel.
    pub fn name_bytes(&self) -> (r: [u8; IF_NAME_SIZE])
        ensures
            r@ == self.name_bytes_spec(),
    {
        self.name
    }

    /// The flag word, as handed to the kernel.
    pub fn flags(&self) -> (r: u16)
        ensures
            r == self.flags_spec(),
    {
        self.flags
    }
}

/// Reading a buffer up to its first zero byte at `k` gives its first `k`
/// bytes as characters.
pub proof fn lemma_name_of_upto(b: Seq<u8>, k: int)
    requires
        0 <= k <= b.len(),
        forall|j: int| 0 <= j < k ==> b[j] != 0,
        k == b.len() || b[k] == 0,
    ensures
        name_of(b) == b.take(k).map_values(|x: u8| x as char),
    decreases k,
{
    if k == 0 {
        assert(b.take(0).map_values(|x: u8| x as char) =~= Seq::<char>::empty());
    } else {
        lemma_name_of_upto(b.drop_first(), k - 1);
        assert(b.take(k).map_values(|x: u8| x as char) =~= seq![b[0] as char] + b.drop_first().take(
            k - 1,
        ).map_values(|x: u8| x as char));
    }
}

proof fn lemma_stored_name_ascii(s: Seq<char>)
    requires
        valid_name(s),
    ensures
        stored_name(s)[MAX_NAME_LEN as int] == 0,
        forall|j: int| 0 <= j < IF_NAME_SIZE ==> #[trigger] stored_name(s)[j] < 128,
{
    vstd::utf8::is_ascii_chars_nat_bound(s);
}

proof fn lemma_stored_name_reads_kept(s: Seq<char>)
    requires
        valid_name(s),
        forall|j: int| 0 <= j < kept_len(s) ==> s[j] != '\0',
    ensures
        name_of(stored_name(s)) == s.take(kept_len(s)),
{
    vstd::utf8::is_ascii_chars_nat_bound(s);
    let b = stored_name(s);
    let n = kept_len(s);
    assert forall|j: int| 0 <= j < n implies b[j] != 0 by {
        assert(s[j] as nat != 0);
    }
    lemma_name_of_upto(b, n);
    assert(b.take(n).map_values(|x: u8| x as char) =~= s.take(n));
}

/// A valid name that fits in the buffer and holds no NUL character is what
/// the record built from it reads back.
pub proof fn lemma_short_name_round_trip(s: Seq<char>)
    requires
        valid_name(s),
        s.len() <= MAX_NAME_LEN,
        forall|j: int| 0 <= j < s.len() ==> s[j] != '\0',
    ensures
        name_of(stored_name(s)) == s,
{
    lemma_stored_name_reads_kept(s);
    assert(s.take(s.len() as int) =~= s);
}

/// A valid name longer than `MAX_NAME_LEN` is cut to exactly its first
/// `MAX_NAME_LEN` characters, and the buffer still ends with a terminator
/// inside its `IF_NAME_SIZE` bytes.
pub proof fn lemma_long_name_truncated(s: Seq<char>)
    requires
        valid_name(s),
        s.len() > MAX_NAME_LEN,
        forall|j: int| 0 <= j < MAX_NAME_LEN ==> s[j] != '\0',
    ensures
        name_of(stored_name(s)) == s.take(MAX_NAME_LEN as int),
        name_of(stored_name(s)).len() == MAX_NAME_LEN,
        stored_name(s).len() == IF_NAME_SIZE,
        stored_name(s)[MAX_NAME_LEN as int] == 0,
{
    lemma_stored_name_reads_kept(s);
}

/// Relies on `String::from_utf8`: ASCII bytes are valid UTF-8, one
/// character per byte.
#[verifier::external_body]
pub(crate) fn ascii_string(bytes: Vec<u8>) -> (r: String)
    requires
        forall|j: int| 0 <= j < bytes@.len() ==> bytes@[j] < 128,
    ensures
        r@ == bytes@.map_values(|b: u8| b as char),
{
    match String::from_utf8(bytes) {
        Ok(s) => s,
        Err(_) => String::new(),
    }
}

} // verus!
