//! String marshalling across the boundary.
//!
//! Textual results cross the boundary as pointers to null-terminated
//! character sequences.  The binding layer copies the characters before the
//! first terminator into an owned string and must not retain the raw buffer
//! afterwards.  Here the raw buffer is represented by the character sequence
//! it points at: [`c_content`] is the content such a buffer carries,
//! [`copy_c_string`] is the copy-out, and [`raw_c_string`] is the rendering
//! the native side performs when it hands a field out.

use vstd::prelude::*;
use vstd::string::StrSliceExecFns;
use vstd::string::StringExecFns;

verus! {

/// The content of a null-terminated buffer: every character strictly before
/// the first `'\0'`.  A buffer without a terminator carries all of its
/// characters.
pub open spec fn c_content(raw: Seq<char>) -> Seq<char>
    decreases raw.len(),
{
    if raw.len() == 0 {
        raw
    } else if raw[0] == '\0' {
        Seq::<char>::empty()
    } else {
        seq![raw[0]] + c_content(raw.drop_first())
    }
}

/// The content of a buffer is the prefix before its first terminator.
pub proof fn lemma_c_content_prefix(raw: Seq<char>, i: int)
    requires
        0 <= i < raw.len(),
        raw[i] == '\0',
        forall|j: int| 0 <= j < i ==> raw[j] != '\0',
    ensures
        c_content(raw) == raw.subrange(0, i),
    decreases i,
{
    if i == 0 {
        assert(c_content(raw) =~= raw.subrange(0, 0));
    } else {
        lemma_c_content_prefix(raw.drop_first(), i - 1);
        assert(raw.drop_first().subrange(0, i - 1) =~= raw.subrange(1, i));
        assert(c_content(raw) =~= raw.subrange(0, i));
    }
}

/// Rendering a terminator-free text as a null-terminated buffer and copying
/// it back out returns the original text: the two sides of the marshalling
/// convention agree.
pub proof fn lemma_c_content_round_trip(s: Seq<char>)
    requires
        !s.contains('\0'),
    ensures
        c_content(s + seq!['\0']) == s,
{
    let raw = s + seq!['\0'];
    assert(raw[s.len() as int] == '\0');
    assert(forall|j: int| 0 <= j < s.len() ==> raw[j] != '\0');
    lemma_c_content_prefix(raw, s.len() as int);
    assert(raw.subrange(0, s.len() as int) =~= s);
}

/// Copy-out of a boundary string: given the characters a returned pointer
/// refers to, copies everything before the first terminator into an owned
/// string.  The buffer must actually be terminated; an unterminated pointer
/// is a native-side contract violation.
pub fn copy_c_string(raw: &str) -> (s: String)
    requires
        raw@.contains('\0'),
    ensures
        s@ == c_content(raw@),
{
    let n: usize = raw.unicode_len();
    let mut i: usize = 0;
    while raw.get_char(i) != '\0'
        invariant
            n == raw@.len(),
            0 <= i <= n,
            exists|k: int| i <= k < raw@.len() && raw@[k] == '\0',
            forall|j: int| 0 <= j < i ==> raw@[j] != '\0',
        decreases n - i,
    {
        proof {
            let k = choose|k: int| i <= k < raw@.len() && raw@[k] == '\0';
            assert(raw@[i as int] != '\0');
            assert(k >= i + 1 && k < raw@.len() && raw@[k] == '\0');
        }
        i = i + 1;
    }
    proof {
        lemma_c_content_prefix(raw@, i as int);
    }
    let prefix = raw.substring_char(0, i);
    String::from_str(prefix)
}

/// The native side's rendering of a text field: the content followed by the
/// terminator, as the characters behind the returned pointer.
pub fn raw_c_string(content: &String) -> (raw: String)
    ensures
        raw@ == content@ + seq!['\0'],
{
    let copy = content.clone();
    let raw = copy.concat("\0");
    proof {
        reveal_strlit("\0");
        assert("\0"@ =~= seq!['\0']);
    }
    raw
}

} // verus!
