use vstd::prelude::*;

verus! {

/// Whether `b` may stand in a header value that reads as text: a visible
/// ASCII character, the space, or a horizontal tab.
pub open spec fn is_visible_ascii(b: u8) -> bool {
    (32 <= b && b < 127) || b == 9
}

pub open spec fn all_visible_ascii(s: Seq<u8>) -> bool {
    forall|i: int| 0 <= i < s.len() ==> is_visible_ascii(#[trigger] s[i])
}

/// The bytes of the scheme prefix `"Bearer "`.
pub open spec fn bearer_prefix() -> Seq<u8> {
    seq![66u8, 101u8, 97u8, 114u8, 101u8, 114u8, 32u8]
}

/// `s` with every occurrence of `"Bearer "` removed, scanning from the left
/// and resuming after each removed occurrence.
pub open spec fn without_bearer(s: Seq<u8>) -> Seq<u8>
    decreases s.len(),
{
    if s.len() < 7 {
        s
    } else if s.take(7) == bearer_prefix() {
        without_bearer(s.skip(7))
    } else {
        seq![s[0]] + without_bearer(s.skip(1))
    }
}

/// A value without a space holds no `"Bearer "` and passes through
/// unchanged.
pub proof fn lemma_without_bearer_no_space(s: Seq<u8>)
    requires
        forall|i: int| 0 <= i < s.len() ==> #[trigger] s[i] != 32,
    ensures
        without_bearer(s) == s,
    decreases s.len(),
{
    if s.len() >= 7 {
        assert(s.take(7)[6] == s[6]);
        assert(bearer_prefix()[6] == 32);
        assert(s.take(7) != bearer_prefix());
        let rest = s.skip(1);
        assert forall|i: int| 0 <= i < rest.len() implies #[trigger] rest[i] != 32 by {
            assert(rest[i] == s[i + 1]);
        }
        lemma_without_bearer_no_space(rest);
        assert(seq![s[0]] + rest =~= s);
    }
}

/// `"Bearer "` followed by a value without a space strips to that value.
pub proof fn lemma_strip_bearer_prefix(s: Seq<u8>)
    requires
        forall|i: int| 0 <= i < s.len() ==> #[trigger] s[i] != 32,
    ensures
        without_bearer(bearer_prefix() + s) == s,
{
    let t = bearer_prefix() + s;
    assert(t.take(7) =~= bearer_prefix());
    assert(t.skip(7) =~= s);
    lemma_without_bearer_no_space(s);
}

/// Whether a header value reads as text (every byte visible ASCII or tab).
pub fn is_text_header_value(b: &[u8]) -> (r: bool)
    ensures
        r == all_visible_ascii(b@),
{
    let mut i: usize = 0;
    while i < b.len()
        invariant
            0 <= i <= b@.len(),
            forall|j: int| 0 <= j < i ==> is_visible_ascii(#[trigger] b@[j]),
        decreases b@.len() - i,
    {
        let c = b[i];
        if !((32 <= c && c < 127) || c == 9) {
            assert(!is_visible_ascii(b@[i as int]));
            return false;
        }
        i = i + 1;
    }
    true
}

/// The bearer token of an `Authorization` value: the value with every
/// occurrence of `"Bearer "` removed, wherever it stands. A value without
/// the prefix passes through unchanged.
pub fn strip_bearer(b: &[u8]) -> (r: Vec<u8>)
    ensures
        r@ == without_bearer(b@),
{
    let mut out: Vec<u8> = Vec::new();
    let mut i: usize = 0;
    assert(b@.skip(0) =~= b@);
    assert(out@ + without_bearer(b@) =~= without_bearer(b@));
    while i < b.len()
        invariant
            0 <= i <= b@.len(),
            without_bearer(b@) == out@ + without_bearer(b@.skip(i as int)),
        decreases b@.len() - i,
    {
        let ghost rest = b@.skip(i as int);
        if 7 <= b.len() - i && b[i] == 66 && b[i + 1] == 101 && b[i + 2] == 97 && b[i + 3] == 114
            && b[i + 4] == 101 && b[i + 5] == 114 && b[i + 6] == 32 {
            assert(rest.take(7) =~= bearer_prefix());
            assert(rest.skip(7) =~= b@.skip(i + 7));
            i = i + 7;
        } else {
            proof {
                if rest.len() >= 7 {
                    assert(rest.take(7) != bearer_prefix()) by {
                        if rest.take(7) == bearer_prefix() {
                            assert(rest.take(7)[0] == b@[i as int]);
                            assert(rest.take(7)[1] == b@[i + 1]);
                            assert(rest.take(7)[2] == b@[i + 2]);
                            assert(rest.take(7)[3] == b@[i + 3]);
                            assert(rest.take(7)[4] == b@[i + 4]);
                            assert(rest.take(7)[5] == b@[i + 5]);
                            assert(rest.take(7)[6] == b@[i + 6]);
                        }
                    }
                    assert(rest.skip(1) =~= b@.skip(i + 1));
                } else {
                    let next = b@.skip(i + 1);
                    assert(rest =~= seq![b@[i as int]] + next);
                    assert(without_bearer(next) == next);
                }
            }
            let ghost before = out@;
            out.push(b[i]);
            assert(out@ + without_bearer(b@.skip(i + 1)) =~= before + (seq![b@[i as int]]
                + without_bearer(b@.skip(i + 1))));
            i = i + 1;
        }
    }
    assert(b@.skip(i as int) =~= Seq::<u8>::empty());
    assert(out@ + Seq::<u8>::empty() =~= out@);
    out
}

} // verus!
