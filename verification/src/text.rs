//! Small verified text helpers: splitting a comma-separated list and
//! rendering an integer in decimal.

use vstd::prelude::*;

verus! {

/// Joins a sequence of pieces with a single comma between neighbours.
///
/// `spec_split_commas` below is pinned down by this function: a split result
/// joins back to the input and no piece holds a comma, which determines the
/// pieces uniquely.
pub open spec fn spec_join_commas(parts: Seq<Seq<char>>) -> Seq<char>
    decreases parts.len(),
{
    if parts.len() == 0 {
        Seq::empty()
    } else if parts.len() == 1 {
        parts[0]
    } else {
        spec_join_commas(parts.drop_last()) + seq![','] + parts.last()
    }
}

/// The views of a sequence of strings.
pub open spec fn spec_views(parts: Seq<String>) -> Seq<Seq<char>> {
    parts.map_values(|p: String| p@)
}

/// The pieces of `s` between its commas, in order.
pub open spec fn spec_split_commas(parts: Seq<Seq<char>>, s: Seq<char>) -> bool {
    &&& parts.len() >= 1
    &&& spec_join_commas(parts) == s
    &&& forall|k: int| 0 <= k < parts.len() ==> !(#[trigger] parts[k]).contains(',')
}

proof fn lemma_join_push(parts: Seq<Seq<char>>, p: Seq<char>)
    requires
        parts.len() >= 1,
    ensures
        spec_join_commas(parts.push(p)) == spec_join_commas(parts) + seq![','] + p,
{
    assert(parts.push(p).drop_last() =~= parts);
    assert(parts.push(p).last() == p);
}

/// The split of a string is pinned down: two piece sequences that both
/// join back to `s` without holding commas themselves are the same. A
/// contract stated over `spec_split_commas` therefore determines its
/// result completely.
pub proof fn lemma_split_commas_unique(p1: Seq<Seq<char>>, p2: Seq<Seq<char>>, s: Seq<char>)
    requires
        spec_split_commas(p1, s),
        spec_split_commas(p2, s),
    ensures
        p1 == p2,
    decreases s.len(),
{
    if p1.len() == 1 && p2.len() == 1 {
        assert(p1[0] == s);
        assert(p2[0] == s);
        assert(p1 =~= p2);
    } else if p1.len() == 1 {
        // p2 joins with at least one comma, but p1's single piece is all
        // of s and holds none.
        let a2 = spec_join_commas(p2.drop_last());
        assert(s =~= a2 + seq![','] + p2.last());
        assert(s[a2.len() as int] == ',');
        assert(p1[0].contains(','));
    } else if p2.len() == 1 {
        let a1 = spec_join_commas(p1.drop_last());
        assert(s =~= a1 + seq![','] + p1.last());
        assert(s[a1.len() as int] == ',');
        assert(p2[0].contains(','));
    } else {
        let a1 = spec_join_commas(p1.drop_last());
        let a2 = spec_join_commas(p2.drop_last());
        assert(s =~= a1 + seq![','] + p1.last());
        assert(s =~= a2 + seq![','] + p2.last());
        // The final pieces both reach back exactly to the last comma.
        assert(a1.len() == a2.len()) by {
            if a1.len() < a2.len() {
                // then s[a2.len()] == ',' falls inside p1's last piece
                assert(s[a2.len() as int] == ',');
                assert(p1.last()[a2.len() - a1.len() - 1] == ',');
                assert(p1.last().contains(','));
            } else if a2.len() < a1.len() {
                assert(s[a1.len() as int] == ',');
                assert(p2.last()[a1.len() - a2.len() - 1] == ',');
                assert(p2.last().contains(','));
            }
        }
        assert(p1.last().len() == s.len() - a1.len() - 1);
        assert(p2.last().len() == s.len() - a2.len() - 1);
        assert forall|k: int| 0 <= k < p1.last().len() implies p1.last()[k] == p2.last()[k] by {
            assert(p1.last()[k] == s[a1.len() + 1 + k]);
            assert(p2.last()[k] == s[a2.len() + 1 + k]);
        }
        assert(p1.last() =~= p2.last());
        let prefix = s.take(a1.len() as int);
        assert(a1 =~= prefix);
        assert(a2 =~= prefix);
        assert(spec_split_commas(p1.drop_last(), prefix));
        assert(spec_split_commas(p2.drop_last(), prefix));
        assert(prefix.len() < s.len());
        lemma_split_commas_unique(p1.drop_last(), p2.drop_last(), prefix);
        assert(p1 =~= p1.drop_last().push(p1.last()));
        assert(p2 =~= p2.drop_last().push(p2.last()));
    }
}

/// Splits `s` at every comma. Empty pieces are kept, so the result always
/// holds at least one piece and joining it with commas gives `s` back.
pub fn split_commas(s: &str) -> (r: Vec<String>)
    ensures
        spec_split_commas(spec_views(r@), s@),
{
    let n = s.unicode_len();
    let mut parts: Vec<String> = Vec::new();
    let mut start: usize = 0;
    let mut i: usize = 0;
    while i < n
        invariant
            n == s@.len(),
            start <= i <= n,
            parts@.len() == 0 ==> start == 0,
            parts@.len() > 0 ==> spec_join_commas(spec_views(parts@)) + seq![','] == s@.take(
                start as int,
            ),
            forall|k: int|
                0 <= k < parts@.len() ==> !(#[trigger] spec_views(parts@)[k]).contains(','),
            forall|k: int| start <= k < i ==> s@[k] != ',',
        decreases n - i,
    {
        let c = s.get_char(i);
        if c == ',' {
            let piece = s.substring_char(start, i).to_owned();
            proof {
                assert(piece@ =~= s@.subrange(start as int, i as int));
                assert(forall|k: int|
                    0 <= k < piece@.len() ==> s@.subrange(start as int, i as int)[k] != ',');
                assert(!piece@.contains(','));
                assert(spec_views(parts@.push(piece)) =~= spec_views(parts@).push(piece@));
                if parts@.len() == 0 {
                    assert(spec_join_commas(spec_views(parts@).push(piece@)) == piece@);
                    assert(piece@ + seq![','] =~= s@.take(i + 1));
                } else {
                    lemma_join_push(spec_views(parts@), piece@);
                    assert(spec_join_commas(spec_views(parts@)) + seq![','] + piece@ + seq![',']
                        =~= s@.take(i + 1));
                }
            }
            parts.push(piece);
            start = i + 1;
        }
        i = i + 1;
    }
    let last = s.substring_char(start, n).to_owned();
    proof {
        assert(last@ =~= s@.subrange(start as int, n as int));
        assert(forall|k: int| 0 <= k < last@.len() ==> s@.subrange(start as int, n as int)[k] != ',');
        assert(!last@.contains(','));
        assert(spec_views(parts@.push(last)) =~= spec_views(parts@).push(last@));
        if parts@.len() == 0 {
            assert(spec_join_commas(spec_views(parts@).push(last@)) == last@);
            assert(last@ =~= s@);
        } else {
            lemma_join_push(spec_views(parts@), last@);
            assert(spec_join_commas(spec_views(parts@)) + seq![','] + last@ =~= s@);
        }
    }
    parts.push(last);
    parts
}

/// Whether some entry of `ids` reads the same as `s`.
pub fn contains_string(ids: &Vec<String>, s: &String) -> (r: bool)
    ensures
        r == exists|k: int| 0 <= k < ids@.len() && (#[trigger] ids@[k])@ == s@,
{
    let mut k: usize = 0;
    while k < ids.len()
        invariant
            k <= ids@.len(),
            forall|j: int| 0 <= j < k ==> (#[trigger] ids@[j])@ != s@,
        decreases ids@.len() - k,
    {
        if ids[k].eq(s) {
            return true;
        }
        k = k + 1;
    }
    false
}

/// The decimal digits of `n`, most significant first.
pub open spec fn spec_dec(n: nat) -> Seq<char>
    decreases n,
{
    if n < 10 {
        seq![spec_digit_char(n)]
    } else {
        spec_dec(n / 10) + seq![spec_digit_char(n % 10)]
    }
}

/// The character for one decimal digit.
pub open spec fn spec_digit_char(d: nat) -> char {
    if d == 0 {
        '0'
    } else if d == 1 {
        '1'
    } else if d == 2 {
        '2'
    } else if d == 3 {
        '3'
    } else if d == 4 {
        '4'
    } else if d == 5 {
        '5'
    } else if d == 6 {
        '6'
    } else if d == 7 {
        '7'
    } else if d == 8 {
        '8'
    } else {
        '9'
    }
}

fn digit_str(d: u64) -> (r: &'static str)
    requires
        d < 10,
    ensures
        r@ == seq![spec_digit_char(d as nat)],
{
    if d == 0 {
        proof {
            reveal_strlit("0");
            assert("0"@ =~= seq![spec_digit_char(0)]);
        }
        "0"
    } else if d == 1 {
        proof {
            reveal_strlit("1");
            assert("1"@ =~= seq![spec_digit_char(1)]);
        }
        "1"
    } else if d == 2 {
        proof {
            reveal_strlit("2");
            assert("2"@ =~= seq![spec_digit_char(2)]);
        }
        "2"
    } else if d == 3 {
        proof {
            reveal_strlit("3");
            assert("3"@ =~= seq![spec_digit_char(3)]);
        }
        "3"
    } else if d == 4 {
        proof {
            reveal_strlit("4");
            assert("4"@ =~= seq![spec_digit_char(4)]);
        }
        "4"
    } else if d == 5 {
        proof {
            reveal_strlit("5");
            assert("5"@ =~= seq![spec_digit_char(5)]);
        }
        "5"
    } else if d == 6 {
        proof {
            reveal_strlit("6");
            assert("6"@ =~= seq![spec_digit_char(6)]);
        }
        "6"
    } else if d == 7 {
        proof {
            reveal_strlit("7");
            assert("7"@ =~= seq![spec_digit_char(7)]);
        }
        "7"
    } else if d == 8 {
        proof {
            reveal_strlit("8");
            assert("8"@ =~= seq![spec_digit_char(8)]);
        }
        "8"
    } else {
        proof {
            reveal_strlit("9");
            assert("9"@ =~= seq![spec_digit_char(9)]);
        }
        "9"
    }
}

/// Renders `n` in decimal, most significant digit first, no leading zeros.
pub fn dec_str(n: u64) -> (r: String)
    ensures
        r@ == spec_dec(n as nat),
    decreases n,
{
    if n < 10 {
        String::from_str(digit_str(n))
    } else {
        let mut s = dec_str(n / 10);
        s.append(digit_str(n % 10));
        s
    }
}

/// Renders a `usize` in decimal.
pub fn dec_str_usize(n: usize) -> (r: String)
    ensures
        r@ == spec_dec(n as nat),
{
    dec_str(n as u64)
}

} // verus!

