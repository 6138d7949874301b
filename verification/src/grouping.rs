//! Digits grouped by thousands.

use vstd::prelude::*;
use vstd::string::*;

verus! {

/// `s` with a space between its groups of three characters, the groups
/// counted from the right: the leftmost group holds what is left, one to
/// three characters. A text of up to three characters stays as it is.
pub open spec fn grouped(s: Seq<char>) -> Seq<char>
    decreases s.len(),
{
    if s.len() <= 3 {
        s
    } else {
        grouped(s.take(s.len() - 3)) + seq![' '] + s.skip(s.len() - 3)
    }
}

/// Grouping can be read from the left as well: where the first `h`
/// characters are the leftmost group, the grouped text is that group, a
/// space, and the rest grouped.
pub proof fn lemma_grouped_front(s: Seq<char>, h: int)
    requires
        1 <= h <= 3,
        s.len() > h,
        (s.len() - h) % 3 == 0,
    ensures
        grouped(s) == s.take(h) + seq![' '] + grouped(s.skip(h)),
    decreases s.len(),
{
    let n = s.len() as int;
    let t = s.take(n - 3);
    let u = s.skip(h);
    if n - h == 3 {
        assert(t =~= s.take(h));
        assert(u =~= s.skip(n - 3));
        assert(grouped(t) == t);
        assert(grouped(u) == u);
    } else {
        lemma_grouped_front(t, h);
        assert(t.take(h) =~= s.take(h));
        assert(u.take(u.len() - 3) =~= t.skip(h));
        assert(u.skip(u.len() - 3) =~= s.skip(n - 3));
        assert(grouped(u) == grouped(t.skip(h)) + seq![' '] + s.skip(n - 3));
        assert(grouped(s) =~= s.take(h) + seq![' '] + grouped(u));
    }
}

/// A text has at least as many bytes as characters.
proof fn lemma_bytes_cover_chars(chars: Seq<char>)
    ensures
        vstd::utf8::encode_utf8(chars).len() >= chars.len(),
    decreases chars.len(),
{
    if chars.len() > 0 {
        lemma_bytes_cover_chars(chars.drop_first());
    }
}

/// Puts a space between the groups of three characters of `s`, the groups
/// counted from the right. A text of more than three bytes must be ASCII;
/// a shorter one comes back as it is, whatever it holds.
pub fn decimal_mark3(s: &str) -> (result: String)
    requires
        s.is_ascii() || s.spec_bytes().len() <= 3,
    ensures
        result@ == grouped(s@),
{
    let len: usize = s.as_bytes().len();
    let mut result = String::new();
    if len <= 3 {
        proof {
            lemma_bytes_cover_chars(s@);
        }
        result.append(s);
        assert(result@ =~= s@);
        return result;
    }
    proof {
        is_ascii_spec_bytes(s);
    }
    let orfans: usize = len % 3;
    result.append(s.substring_ascii(0, orfans));
    if orfans > 0 {
        result.append(" ");
    }
    proof {
        reveal_strlit(" ");
        assert(" "@ =~= seq![' ']);
        if orfans > 0 {
            lemma_grouped_front(s@, orfans as int);
            assert(s@.subrange(0, orfans as int) =~= s@.take(orfans as int));
        } else {
            assert(s@.skip(0) =~= s@);
        }
        assert(result@ + grouped(s@.skip(orfans as int)) =~= grouped(s@));
    }
    let mut i: usize = orfans;
    while i < len
        invariant
            len == s@.len(),
            s.is_ascii(),
            i <= len,
            (len - i) % 3 == 0,
            " "@ == seq![' '],
            result@ + grouped(s@.skip(i as int)) == grouped(s@),
        decreases len - i,
    {
        let ghost rest = s@.skip(i as int);
        let ghost before = result@;
        result.append(s.substring_ascii(i, i + 3));
        if i + 3 < len {
            result.append(" ");
        }
        proof {
            assert(s@.subrange(i as int, i + 3) =~= rest.take(3));
            assert(rest.skip(3) =~= s@.skip(i + 3));
            if i + 3 < len {
                lemma_grouped_front(rest, 3);
                assert(result@ + grouped(s@.skip(i + 3)) =~= before + grouped(rest));
            } else {
                assert(rest.take(3) =~= rest);
                assert(grouped(s@.skip(i + 3)) =~= Seq::<char>::empty());
                assert(result@ + grouped(s@.skip(i + 3)) =~= before + grouped(rest));
            }
        }
        i = i + 3;
    }
    assert(grouped(s@.skip(i as int)) =~= Seq::<char>::empty());
    assert(result@ =~= grouped(s@));
    result
}

} // verus!
