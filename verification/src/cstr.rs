use vstd::prelude::*;
use vstd::string::StringSliceAdditionalSpecFns;

verus! {

/// What C reads from a byte buffer as a string: the bytes before the first NUL
/// (all of them where there is no NUL).
pub open spec fn c_str_content(s: Seq<u8>) -> Seq<u8>
    decreases s.len(),
{
    if s.len() == 0 {
        s
    } else if s[0] == 0 {
        Seq::empty()
    } else {
        seq![s[0]] + c_str_content(s.drop_first())
    }
}

/// Whether `s` can become a C string: it holds no NUL byte.
pub open spec fn is_c_compatible(s: &str) -> bool {
    !s.spec_bytes().contains(0u8)
}

/// The NUL-terminated form of `s`, as C receives it.
pub open spec fn spec_c_string(s: &str) -> Seq<u8> {
    s.spec_bytes().push(0u8)
}

/// Tells whether `s` holds a NUL byte, that is, whether it cannot be passed to C.
pub fn contains_nul(s: &str) -> (r: bool)
    ensures
        r == !is_c_compatible(s),
        r <==> (exists|j: int| 0 <= j < s.spec_bytes().len() && s.spec_bytes()[j] == 0u8),
{
    let bytes = s.as_bytes();
    let mut i: usize = 0;
    while i < bytes.len()
        invariant
            i <= bytes@.len(),
            bytes@ == s.spec_bytes(),
            forall|j: int| 0 <= j < i ==> bytes@[j] != 0u8,
        decreases bytes@.len() - i,
    {
        if bytes[i] == 0 {
            assert(s.spec_bytes()[i as int] == 0u8);
            return true;
        }
        i = i + 1;
    }
    false
}

/// Turns `s` into the bytes of a C string: its bytes followed by one NUL.
pub fn to_c_string(s: &str) -> (r: Vec<u8>)
    requires
        is_c_compatible(s),
    ensures
        r@ == spec_c_string(s),
        r@ == s.spec_bytes().push(0u8),
        r@.len() == s.spec_bytes().len() + 1,
{
    let bytes = s.as_bytes();
    let mut out: Vec<u8> = Vec::new();
    let mut i: usize = 0;
    while i < bytes.len()
        invariant
            i <= bytes@.len(),
            bytes@ == s.spec_bytes(),
            out@ == bytes@.subrange(0, i as int),
        decreases bytes@.len() - i,
    {
        out.push(bytes[i]);
        i = i + 1;
    }
    assert(out@ == bytes@);
    out.push(0);
    out
}

/// The NUL-terminated form of an optional string; `None` stays `None`
/// (C receives a null pointer for it).
pub open spec fn spec_opt_c_string(s: Option<&str>) -> Option<Seq<u8>> {
    match s {
        Some(x) => Some(spec_c_string(x)),
        None => None,
    }
}

/// Whether an optional string can be passed to C: absent, or free of NUL bytes.
pub open spec fn is_opt_c_compatible(s: Option<&str>) -> bool {
    match s {
        Some(x) => is_c_compatible(x),
        None => true,
    }
}

/// Turns an optional string into an optional C string.
pub fn to_opt_c_string(s: Option<&str>) -> (r: Option<Vec<u8>>)
    requires
        is_opt_c_compatible(s),
    ensures
        r is Some <==> s is Some,
        r is Some ==> Some(r.unwrap()@) == spec_opt_c_string(s),
        s is Some ==> r.unwrap()@ == s.unwrap().spec_bytes().push(0u8),
{
    match s {
        Some(x) => Some(to_c_string(x)),
        None => None,
    }
}

/// Turns each string of a list into a C string, keeping the order.
pub fn to_c_string_list(list: &Vec<&str>) -> (r: Vec<Vec<u8>>)
    requires
        forall|i: int| 0 <= i < list@.len() ==> is_c_compatible(#[trigger] list@[i]),
    ensures
        r@.len() == list@.len(),
        forall|i: int| 0 <= i < list@.len() ==> (#[trigger] r@[i])@ == spec_c_string(list@[i]),
        forall|i: int| 0 <= i < list@.len() ==> (#[trigger] r@[i])@ == list@[i].spec_bytes().push(0u8),
{
    let mut out: Vec<Vec<u8>> = Vec::new();
    let mut i: usize = 0;
    while i < list.len()
        invariant
            i <= list@.len(),
            out@.len() == i,
            forall|j: int| 0 <= j < list@.len() ==> is_c_compatible(#[trigger] list@[j]),
            forall|j: int| 0 <= j < i ==> (#[trigger] out@[j])@ == spec_c_string(list@[j]),
        decreases list@.len() - i,
    {
        let c = to_c_string(list[i]);
        out.push(c);
        i = i + 1;
    }
    out
}

proof fn lemma_c_str_content_push_nul(b: Seq<u8>)
    requires
        !b.contains(0u8),
    ensures
        c_str_content(b.push(0u8)) == b,
    decreases b.len(),
{
    let t = b.push(0u8);
    if b.len() == 0 {
        assert(t[0] == 0u8);
        assert(c_str_content(t) =~= b);
    } else {
        assert(t[0] == b[0]);
        assert(b[0] != 0u8) by {
            if b[0] == 0u8 {
                assert(b.contains(0u8));
            }
        }
        let rest = b.drop_first();
        assert(!rest.contains(0u8)) by {
            if rest.contains(0u8) {
                let k = choose|k: int| 0 <= k < rest.len() && rest[k] == 0u8;
                assert(b[k + 1] == 0u8);
            }
        }
        assert(t.drop_first() =~= rest.push(0u8));
        lemma_c_str_content_push_nul(rest);
        assert(seq![b[0]] + rest =~= b);
    }
}

/// A string without NUL bytes, turned into a C string, reads back in C as
/// exactly the same bytes.
pub proof fn lemma_c_string_reads_back(s: &str)
    requires
        is_c_compatible(s),
    ensures
        c_str_content(spec_c_string(s)) == s.spec_bytes(),
        c_str_content(spec_c_string(s)).len() == s.spec_bytes().len(),
{
    lemma_c_str_content_push_nul(s.spec_bytes());
}

/// A string can be handed to C exactly when none of its bytes is zero: any
/// other byte, non-ASCII or punctuation included, is accepted.
pub proof fn lemma_c_compatible_iff_no_zero_byte(s: &str)
    ensures
        is_c_compatible(s) <==> (forall|j: int|
            0 <= j < s.spec_bytes().len() ==> s.spec_bytes()[j] != 0u8),
        !is_c_compatible(s) <==> (exists|j: int|
            0 <= j < s.spec_bytes().len() && s.spec_bytes()[j] == 0u8),
{
    if !is_c_compatible(s) {
        let j = choose|j: int| 0 <= j < s.spec_bytes().len() && s.spec_bytes()[j] == 0u8;
        assert(s.spec_bytes()[j] == 0u8);
    }
}

/// The C string of a string without zero bytes is all of its bytes, in
/// order, followed by one zero byte, whatever its length.
pub proof fn lemma_c_string_layout(s: &str)
    requires
        is_c_compatible(s),
    ensures
        spec_c_string(s).len() == s.spec_bytes().len() + 1,
        spec_c_string(s).subrange(0, s.spec_bytes().len() as int) == s.spec_bytes(),
        spec_c_string(s)[s.spec_bytes().len() as int] == 0u8,
        forall|i: int| 0 <= i < s.spec_bytes().len() ==> spec_c_string(s)[i] != 0u8,
        c_str_content(spec_c_string(s)) == s.spec_bytes(),
{
    lemma_c_compatible_iff_no_zero_byte(s);
    assert(spec_c_string(s).subrange(0, s.spec_bytes().len() as int) =~= s.spec_bytes());
    assert forall|i: int| 0 <= i < s.spec_bytes().len() implies spec_c_string(s)[i] != 0u8 by {
        assert(spec_c_string(s)[i] == s.spec_bytes()[i]);
    }
    lemma_c_string_reads_back(s);
}

/// An optional string becomes an optional C string: absent stays absent, and
/// a present string becomes all of its bytes followed by one zero byte,
/// which C reads back as the whole string.
pub proof fn lemma_opt_c_string_layout(s: Option<&str>)
    requires
        is_opt_c_compatible(s),
    ensures
        s is None <==> spec_opt_c_string(s) is None,
        s is Some ==> spec_opt_c_string(s).unwrap() == s.unwrap().spec_bytes().push(0u8),
        s is Some ==> spec_opt_c_string(s).unwrap().len() == s.unwrap().spec_bytes().len() + 1,
        s is Some ==> c_str_content(spec_opt_c_string(s).unwrap()) == s.unwrap().spec_bytes(),
{
    if s is Some {
        lemma_c_string_layout(s.unwrap());
    }
}

} // verus!
