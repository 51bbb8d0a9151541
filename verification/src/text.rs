//! Character classification, trimming, and ASCII upper-casing.

use vstd::prelude::*;

verus! {

/// A character counts as whitespace exactly when it has the Unicode
/// `White_Space` property, the same set that `str::trim` removes.
pub open spec fn is_ws(c: char) -> bool {
    let u = c as u32;
    (9 <= u && u <= 13) || u == 32 || u == 0x85 || u == 0xA0 || u == 0x1680
        || (0x2000 <= u && u <= 0x200A) || u == 0x2028 || u == 0x2029 || u == 0x202F
        || u == 0x205F || u == 0x3000
}

/// Runtime test for [`is_ws`].
pub fn is_ws_char(c: char) -> (b: bool)
    ensures
        b == is_ws(c),
{
    let u = c as u32;
    (9 <= u && u <= 13) || u == 32 || u == 0x85 || u == 0xA0 || u == 0x1680
        || (0x2000 <= u && u <= 0x200A) || u == 0x2028 || u == 0x2029 || u == 0x202F
        || u == 0x205F || u == 0x3000
}

/// What is left of `s` after removing its leading whitespace.
pub open spec fn trim_start_spec(s: Seq<char>) -> Seq<char>
    decreases s.len(),
{
    if s.len() == 0 {
        s
    } else if is_ws(s[0]) {
        trim_start_spec(s.drop_first())
    } else {
        s
    }
}

/// What is left of `s` after removing its trailing whitespace.
pub open spec fn trim_end_spec(s: Seq<char>) -> Seq<char>
    decreases s.len(),
{
    if s.len() == 0 {
        s
    } else if is_ws(s.last()) {
        trim_end_spec(s.drop_last())
    } else {
        s
    }
}

/// What is left of `s` after removing both leading and trailing
/// whitespace: the meaning of `str::trim`.
pub open spec fn trim_spec(s: Seq<char>) -> Seq<char> {
    trim_end_spec(trim_start_spec(s))
}

/// If the first `i` characters are whitespace and the character at `i`
/// (when there is one) is not, trimming the start keeps exactly the
/// suffix from `i` on.
proof fn lemma_trim_start_is_suffix(s: Seq<char>, i: int)
    requires
        0 <= i <= s.len(),
        forall|k: int| 0 <= k < i ==> is_ws(s[k]),
        i < s.len() ==> !is_ws(s[i]),
    ensures
        trim_start_spec(s) == s.subrange(i, s.len() as int),
    decreases i,
{
    if i == 0 {
        assert(trim_start_spec(s) =~= s.subrange(0, s.len() as int));
    } else {
        let t = s.drop_first();
        assert(forall|k: int| 0 <= k < i - 1 ==> is_ws(t[k]));
        lemma_trim_start_is_suffix(t, i - 1);
        assert(t.subrange(i - 1, t.len() as int) =~= s.subrange(i, s.len() as int));
    }
}

/// If the characters from `j` on are whitespace and the character just
/// before `j` (when there is one) is not, trimming the end keeps exactly
/// the prefix up to `j`.
proof fn lemma_trim_end_is_prefix(s: Seq<char>, j: int)
    requires
        0 <= j <= s.len(),
        forall|k: int| j <= k < s.len() ==> is_ws(s[k]),
        0 < j ==> !is_ws(s[j - 1]),
    ensures
        trim_end_spec(s) == s.subrange(0, j),
    decreases s.len(),
{
    if j == s.len() {
        if s.len() == 0 || !is_ws(s.last()) {
            assert(trim_end_spec(s) =~= s.subrange(0, j));
        }
    } else {
        let t = s.drop_last();
        assert(is_ws(s.last()));
        lemma_trim_end_is_prefix(t, j);
        assert(t.subrange(0, j) =~= s.subrange(0, j));
    }
}

/// A string whose leading whitespace has been removed is empty or starts
/// with a non-whitespace character.
proof fn lemma_trim_start_head(s: Seq<char>)
    ensures
        trim_start_spec(s).len() > 0 ==> !is_ws(trim_start_spec(s)[0]),
    decreases s.len(),
{
    if s.len() > 0 && is_ws(s[0]) {
        lemma_trim_start_head(s.drop_first());
    }
}

/// Removing trailing whitespace keeps a prefix of the string unchanged,
/// and that prefix ends with a non-whitespace character when non-empty.
proof fn lemma_trim_end_props(s: Seq<char>)
    ensures
        trim_end_spec(s).len() <= s.len(),
        forall|k: int| 0 <= k < trim_end_spec(s).len() ==> trim_end_spec(s)[k] == s[k],
        trim_end_spec(s).len() > 0 ==> !is_ws(trim_end_spec(s).last()),
    decreases s.len(),
{
    if s.len() > 0 && is_ws(s.last()) {
        let t = s.drop_last();
        lemma_trim_end_props(t);
        assert(forall|k: int| 0 <= k < t.len() ==> t[k] == s[k]);
    }
}

/// Removing trailing whitespace cannot empty a string whose first
/// character is not whitespace.
proof fn lemma_trim_end_keeps_head(s: Seq<char>)
    requires
        s.len() > 0,
        !is_ws(s[0]),
    ensures
        trim_end_spec(s).len() > 0,
    decreases s.len(),
{
    if is_ws(s.last()) {
        lemma_trim_end_keeps_head(s.drop_last());
    }
}

/// A string with no leading and no trailing whitespace is its own trim.
pub proof fn lemma_trim_fixed(s: Seq<char>)
    requires
        s.len() > 0 ==> !is_ws(s[0]) && !is_ws(s.last()),
    ensures
        trim_spec(s) == s,
{
    if s.len() == 0 {
        assert(trim_spec(s) =~= s);
    }
}

/// Trimming a whitespace-only string leaves nothing.
pub proof fn lemma_trim_blank(s: Seq<char>)
    requires
        forall|k: int| 0 <= k < s.len() ==> is_ws(s[k]),
    ensures
        trim_spec(s).len() == 0,
{
    lemma_trim_start_is_suffix(s, s.len() as int);
    assert(trim_start_spec(s) =~= Seq::<char>::empty());
}

/// A non-empty trimmed string neither starts nor ends with whitespace.
pub proof fn lemma_trim_no_edge_ws(s: Seq<char>)
    ensures
        trim_spec(s).len() > 0 ==> !is_ws(trim_spec(s)[0]) && !is_ws(trim_spec(s).last()),
{
    lemma_trim_start_head(s);
    lemma_trim_end_props(trim_start_spec(s));
}

/// Trimming is idempotent.
pub proof fn lemma_trim_idempotent(s: Seq<char>)
    ensures
        trim_spec(trim_spec(s)) == trim_spec(s),
{
    let t = trim_start_spec(s);
    lemma_trim_start_head(s);
    lemma_trim_end_props(t);
    lemma_trim_fixed(trim_spec(s));
}

/// Runtime trim, proved to match [`trim_spec`].
pub fn trim_str(s: &str) -> (r: String)
    ensures
        r@ == trim_spec(s@),
{
    let n = s.unicode_len();
    let mut i: usize = 0;
    while i < n && is_ws_char(s.get_char(i))
        invariant
            n == s@.len(),
            0 <= i <= n,
            forall|k: int| 0 <= k < i ==> is_ws(s@[k]),
        decreases n - i,
    {
        i = i + 1;
    }
    proof {
        lemma_trim_start_is_suffix(s@, i as int);
    }
    if i == n {
        proof {
            assert(trim_start_spec(s@) =~= Seq::<char>::empty());
            assert(trim_spec(s@) =~= Seq::<char>::empty());
        }
        return String::new();
    }
    let mut j: usize = n;
    while j > i + 1 && is_ws_char(s.get_char(j - 1))
        invariant
            n == s@.len(),
            0 <= i < n,
            i + 1 <= j <= n,
            !is_ws(s@[i as int]),
            forall|k: int| j <= k < n ==> is_ws(s@[k]),
        decreases j,
    {
        j = j - 1;
    }
    let r = s.substring_char(i, j).to_owned();
    proof {
        let t = trim_start_spec(s@);
        assert(t == s@.subrange(i as int, n as int));
        if is_ws(s@[j - 1]) {
            assert(j == i + 1);
            assert(false);
        }
        lemma_trim_end_is_prefix(t, j - i);
        assert(t.subrange(0, j - i) =~= s@.subrange(i as int, j as int));
    }
    r
}

/// Runtime test for "blank": empty once trimmed, that is, made of
/// whitespace only.
pub fn is_blank(s: &str) -> (b: bool)
    ensures
        b == (trim_spec(s@).len() == 0),
{
    let n = s.unicode_len();
    let mut i: usize = 0;
    while i < n && is_ws_char(s.get_char(i))
        invariant
            n == s@.len(),
            0 <= i <= n,
            forall|k: int| 0 <= k < i ==> is_ws(s@[k]),
        decreases n - i,
    {
        i = i + 1;
    }
    proof {
        lemma_trim_start_is_suffix(s@, i as int);
        if i == n {
            assert(trim_start_spec(s@) =~= Seq::<char>::empty());
            assert(trim_spec(s@) =~= Seq::<char>::empty());
        } else {
            assert(trim_start_spec(s@)[0] == s@[i as int]);
            lemma_trim_end_keeps_head(trim_start_spec(s@));
        }
    }
    i == n
}

/// ASCII upper-casing of a single character: `'a'..='z'` map to
/// `'A'..='Z'`, every other character is unchanged.
pub open spec fn upper_char(c: char) -> char {
    let u = c as u32;
    if 97 <= u && u <= 122 {
        (u - 32) as char
    } else {
        c
    }
}

/// ASCII upper-casing of a whole character sequence.
pub open spec fn upper_seq(s: Seq<char>) -> Seq<char> {
    s.map_values(|c: char| upper_char(c))
}

/// Whether a character is a lower-case ASCII letter.
pub open spec fn is_ascii_lower(c: char) -> bool {
    97 <= c as u32 && c as u32 <= 122
}

/// Upper-casing one character keeps its whitespace status, is
/// idempotent, and never yields a lower-case ASCII letter.
pub proof fn lemma_upper_char_props(c: char)
    ensures
        is_ws(upper_char(c)) == is_ws(c),
        upper_char(upper_char(c)) == upper_char(c),
        !is_ascii_lower(upper_char(c)),
{
}

/// The upper-case letter for a lower-case ASCII letter, as a string
/// slice; `None` for every character that upper-casing leaves alone.
fn upper_lit(c: char) -> (r: Option<&'static str>)
    ensures
        match r {
            Some(u) => u@ == seq![upper_char(c)],
            None => upper_char(c) == c,
        },
{
    match c {
        'a' => {
            proof {
                reveal_strlit("A");
                assert("A"@ =~= seq![upper_char('a')]);
            }
            Some("A")
        },
        'b' => {
            proof {
                reveal_strlit("B");
                assert("B"@ =~= seq![upper_char('b')]);
            }
            Some("B")
        },
        'c' => {
            proof {
                reveal_strlit("C");
                assert("C"@ =~= seq![upper_char('c')]);
            }
            Some("C")
        },
        'd' => {
            proof {
                reveal_strlit("D");
                assert("D"@ =~= seq![upper_char('d')]);
            }
            Some("D")
        },
        'e' => {
            proof {
                reveal_strlit("E");
                assert("E"@ =~= seq![upper_char('e')]);
            }
            Some("E")
        },
        'f' => {
            proof {
                reveal_strlit("F");
                assert("F"@ =~= seq![upper_char('f')]);
            }
            Some("F")
        },
        'g' => {
            proof {
                reveal_strlit("G");
                assert("G"@ =~= seq![upper_char('g')]);
            }
            Some("G")
        },
        'h' => {
            proof {
                reveal_strlit("H");
                assert("H"@ =~= seq![upper_char('h')]);
            }
            Some("H")
        },
        'i' => {
            proof {
                reveal_strlit("I");
                assert("I"@ =~= seq![upper_char('i')]);
            }
            Some("I")
        },
        'j' => {
            proof {
                reveal_strlit("J");
                assert("J"@ =~= seq![upper_char('j')]);
            }
            Some("J")
        },
        'k' => {
            proof {
                reveal_strlit("K");
                assert("K"@ =~= seq![upper_char('k')]);
            }
            Some("K")
        },
        'l' => {
            proof {
                reveal_strlit("L");
                assert("L"@ =~= seq![upper_char('l')]);
            }
            Some("L")
        },
        'm' => {
            proof {
                reveal_strlit("M");
                assert("M"@ =~= seq![upper_char('m')]);
            }
            Some("M")
        },
        'n' => {
            proof {
                reveal_strlit("N");
                assert("N"@ =~= seq![upper_char('n')]);
            }
            Some("N")
        },
        'o' => {
            proof {
                reveal_strlit("O");
                assert("O"@ =~= seq![upper_char('o')]);
            }
            Some("O")
        },
        'p' => {
            proof {
                reveal_strlit("P");
                assert("P"@ =~= seq![upper_char('p')]);
            }
            Some("P")
        },
        'q' => {
            proof {
                reveal_strlit("Q");
                assert("Q"@ =~= seq![upper_char('q')]);
            }
            Some("Q")
        },
        'r' => {
            proof {
                reveal_strlit("R");
                assert("R"@ =~= seq![upper_char('r')]);
            }
            Some("R")
        },
        's' => {
            proof {
                reveal_strlit("S");
                assert("S"@ =~= seq![upper_char('s')]);
            }
            Some("S")
        },
        't' => {
            proof {
                reveal_strlit("T");
                assert("T"@ =~= seq![upper_char('t')]);
            }
            Some("T")
        },
        'u' => {
            proof {
                reveal_strlit("U");
                assert("U"@ =~= seq![upper_char('u')]);
            }
            Some("U")
        },
        'v' => {
            proof {
                reveal_strlit("V");
                assert("V"@ =~= seq![upper_char('v')]);
            }
            Some("V")
        },
        'w' => {
            proof {
                reveal_strlit("W");
                assert("W"@ =~= seq![upper_char('w')]);
            }
            Some("W")
        },
        'x' => {
            proof {
                reveal_strlit("X");
                assert("X"@ =~= seq![upper_char('x')]);
            }
            Some("X")
        },
        'y' => {
            proof {
                reveal_strlit("Y");
                assert("Y"@ =~= seq![upper_char('y')]);
            }
            Some("Y")
        },
        'z' => {
            proof {
                reveal_strlit("Z");
                assert("Z"@ =~= seq![upper_char('z')]);
            }
            Some("Z")
        },
        _ => None,
    }
}

/// Runtime ASCII upper-casing of a whole string, proved to match
/// [`upper_seq`].
pub fn to_upper_string(s: &str) -> (r: String)
    ensures
        r@ == upper_seq(s@),
{
    let n = s.unicode_len();
    let mut out = String::new();
    let mut i: usize = 0;
    while i < n
        invariant
            n == s@.len(),
            0 <= i <= n,
            out@ == upper_seq(s@.subrange(0, i as int)),
        decreases n - i,
    {
        let c = s.get_char(i);
        match upper_lit(c) {
            Some(u) => out.append(u),
            None => {
                let piece = s.substring_char(i, i + 1);
                proof {
                    assert(piece@ =~= seq![s@[i as int]]);
                }
                out.append(piece);
            },
        }
        proof {
            assert(out@ =~= upper_seq(s@.subrange(0, i + 1 as int)));
        }
        i = i + 1;
    }
    proof {
        assert(s@.subrange(0, n as int) =~= s@);
    }
    out
}

} // verus!
