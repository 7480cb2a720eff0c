use vstd::prelude::*;

verus! {

/// The UTF-16 code units of one character: one unit below `0x10000`, else a
/// high and a low surrogate.
pub open spec fn utf16_units(c: char) -> Seq<u16> {
    let v = c as int;
    if v < 0x10000 {
        seq![v as u16]
    } else {
        let w = v - 0x10000;
        seq![(0xD800 + w / 0x400) as u16, (0xDC00 + w % 0x400) as u16]
    }
}

/// The UTF-16 encoding of a string.
pub open spec fn utf16_of(s: Seq<char>) -> Seq<u16>
    decreases s.len(),
{
    if s.len() == 0 {
        Seq::empty()
    } else {
        utf16_of(s.drop_last()) + utf16_units(s.last())
    }
}

/// Relies on `str::encode_utf16`: the string's UTF-16 code units, in order.
#[verifier::external_body]
fn encode_utf16(text: &str) -> (r: Vec<u16>)
    ensures
        r@ == utf16_of(text@),
{
    text.encode_utf16().collect()
}

/// Encodes `text` as the null-terminated wide string that Win32 reads.
pub fn str_to_pointer(text: &str) -> (r: Vec<u16>)
    ensures
        r@ == utf16_of(text@).push(0),
{
    let mut units = encode_utf16(text);
    units.push(0);
    units
}

/// No character but `'\0'` has a zero code unit.
proof fn lemma_units_nonzero(c: char)
    requires
        c != '\0',
    ensures
        forall|i: int| 0 <= i < utf16_units(c).len() ==> utf16_units(c)[i] != 0,
{
    assert((c as int) != 0) by {
        if (c as int) == 0 {
            assert(c == '\0');
        }
    }
}

/// Text without a `'\0'` encodes to a wide string whose only zero unit is
/// the terminator, so Win32 reads all of it.
pub proof fn lemma_terminator_unique(s: Seq<char>)
    requires
        forall|i: int| 0 <= i < s.len() ==> s[i] != '\0',
    ensures
        forall|i: int| 0 <= i < utf16_of(s).len() ==> utf16_of(s)[i] != 0,
    decreases s.len(),
{
    if s.len() > 0 {
        let t = s.drop_last();
        assert forall|i: int| 0 <= i < t.len() implies t[i] != '\0' by {
            assert(t[i] == s[i]);
        }
        lemma_terminator_unique(t);
        lemma_units_nonzero(s.last());
        let a = utf16_of(t);
        let b = utf16_units(s.last());
        assert forall|i: int| 0 <= i < utf16_of(s).len() implies utf16_of(s)[i] != 0 by {
            if i >= a.len() {
                assert(utf16_of(s)[i] == b[i - a.len()]);
            } else {
                assert(utf16_of(s)[i] == a[i]);
            }
        }
    }
}

} // verus!
