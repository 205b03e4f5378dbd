//! Text handling for the transcription flow: the normalization under
//! which stop phrases are compared, suffix matching and stripping of a
//! trailing stop phrase, whitespace trimming, and decimal rendering of
//! the recording clock.
//!
//! Normalization lowercases ASCII letters and drops sentence-final
//! punctuation and apostrophes, so that "That's all.", "thats all" and
//! "THAT'S ALL" all compare equal to the phrase "that's all".

use vstd::prelude::*;
use vstd::string::StrSliceExecFns;
use vstd::string::StringExecFns;

verus! {

/// ASCII uppercase letters map to their lowercase forms; every other
/// character is kept as it is.
pub open spec fn spec_lower_char(c: char) -> char {
    if 65 <= c as u32 && c as u32 <= 90 {
        (((c as u32) + 32) as u8) as char
    } else {
        c
    }
}

/// Characters that normalization drops: sentence-final punctuation and
/// apostrophes.
pub open spec fn spec_is_dropped(c: char) -> bool {
    c == '.' || c == '\''
}

/// Normalized form of a text: lowercased, with dropped characters
/// removed, order otherwise kept.
pub open spec fn spec_normalize(s: Seq<char>) -> Seq<char>
    decreases s.len(),
{
    if s.len() == 0 {
        Seq::empty()
    } else {
        let rest = spec_normalize(s.drop_last());
        let c = spec_lower_char(s.last());
        if spec_is_dropped(c) {
            rest
        } else {
            rest.push(c)
        }
    }
}

/// `suffix` closes `s`.
pub open spec fn spec_ends_with(s: Seq<char>, suffix: Seq<char>) -> bool {
    s.len() >= suffix.len() && s.subrange(s.len() - suffix.len(), s.len() as int) == suffix
}

/// A text matches a stop phrase when its normalized form ends with the
/// normalized phrase.
pub open spec fn spec_stop_match(text: Seq<char>, phrase: Seq<char>) -> bool {
    spec_ends_with(spec_normalize(text), spec_normalize(phrase))
}

/// Largest index `j <= i` at which the suffix `text[j..]` normalizes to
/// exactly the normalized phrase, searching downward from `i`.
pub open spec fn spec_find_cut(text: Seq<char>, phrase: Seq<char>, i: nat) -> Option<nat>
    decreases i,
{
    if spec_normalize(text.skip(i as int)) == spec_normalize(phrase) {
        Some(i)
    } else if i == 0 {
        None
    } else {
        spec_find_cut(text, phrase, (i - 1) as nat)
    }
}

/// Where a trailing stop phrase begins in `text`: the largest cut point
/// whose suffix normalizes to the normalized phrase, if there is one.
pub open spec fn spec_cut(text: Seq<char>, phrase: Seq<char>) -> Option<nat> {
    spec_find_cut(text, phrase, text.len())
}

/// Normalization distributes over concatenation: normalizing a text
/// piece by piece gives the normalization of the whole.
pub proof fn lemma_normalize_concat(a: Seq<char>, b: Seq<char>)
    ensures
        spec_normalize(a + b) == spec_normalize(a) + spec_normalize(b),
    decreases b.len(),
{
    if b.len() == 0 {
        assert(a + b =~= a);
        assert(spec_normalize(a) + spec_normalize(b) =~= spec_normalize(a));
    } else {
        lemma_normalize_concat(a, b.drop_last());
        assert((a + b).drop_last() =~= a + b.drop_last());
        assert((a + b).last() == b.last());
        let c = spec_lower_char(b.last());
        if !spec_is_dropped(c) {
            assert(spec_normalize(a) + spec_normalize(b) =~= (spec_normalize(a) + spec_normalize(
                b.drop_last(),
            )).push(c));
        }
    }
}

/// What the downward search finds: a cut point it reports really is
/// one, and when it reports none, no index up to where it started is
/// one.
proof fn lemma_find_cut_sound(text: Seq<char>, phrase: Seq<char>, j: nat)
    ensures
        match spec_find_cut(text, phrase, j) {
            Some(i) => i <= j && spec_normalize(text.skip(i as int)) == spec_normalize(phrase),
            None => forall|i: nat|
                i <= j ==> spec_normalize(text.skip(i as int)) != spec_normalize(phrase),
        },
    decreases j,
{
    if spec_normalize(text.skip(j as int)) == spec_normalize(phrase) {
    } else if j > 0 {
        lemma_find_cut_sound(text, phrase, (j - 1) as nat);
    }
}

/// The downward search misses nothing: when some index up to where it
/// starts is a cut point, it reports one.
proof fn lemma_find_cut_complete(text: Seq<char>, phrase: Seq<char>, j: nat, i: nat)
    requires
        i <= j,
        spec_normalize(text.skip(i as int)) == spec_normalize(phrase),
    ensures
        spec_find_cut(text, phrase, j) is Some,
    decreases j,
{
    if spec_normalize(text.skip(j as int)) == spec_normalize(phrase) {
    } else {
        lemma_find_cut_complete(text, phrase, (j - 1) as nat, i);
    }
}

/// Dropping one leading character shortens the normalization by at
/// most one, so every length below the whole normalization's length is
/// hit by some suffix: this picks a suffix whose normalization has
/// exactly the wanted length.
proof fn lemma_suffix_norm_with_len(text: Seq<char>, target: nat) -> (i: nat)
    requires
        target <= spec_normalize(text).len(),
    ensures
        i <= text.len(),
        spec_normalize(text.skip(i as int)).len() == target,
    decreases text.len(),
{
    if spec_normalize(text).len() == target {
        assert(text.skip(0) =~= text);
        0
    } else {
        let head = seq![text[0]];
        assert(text =~= head + text.skip(1));
        lemma_normalize_concat(head, text.skip(1));
        assert(head.drop_last() =~= Seq::<char>::empty());
        assert(spec_normalize(Seq::<char>::empty()) =~= Seq::<char>::empty());
        assert(spec_normalize(head).len() <= 1);
        let rest = lemma_suffix_norm_with_len(text.skip(1), target);
        assert(text.skip(rest + 1 as int) =~= text.skip(1).skip(rest as int));
        rest + 1
    }
}

/// The matcher and the stripper agree: a text ends with the stop
/// phrase, after normalization, exactly when the stripper finds a
/// trailing suffix that normalizes to the phrase.  An auto-stop
/// triggered by the matcher therefore always has something for the
/// final stripping step to remove.
pub proof fn lemma_stop_match_iff_strip(text: Seq<char>, phrase: Seq<char>)
    ensures
        spec_stop_match(text, phrase) <==> spec_cut(text, phrase) is Some,
{
    let nt = spec_normalize(text);
    let np = spec_normalize(phrase);
    if spec_cut(text, phrase) is Some {
        lemma_find_cut_sound(text, phrase, text.len());
        let i = spec_cut(text, phrase)->0;
        assert(text =~= text.take(i as int) + text.skip(i as int));
        lemma_normalize_concat(text.take(i as int), text.skip(i as int));
        assert(nt.subrange(nt.len() - np.len(), nt.len() as int) =~= np);
    }
    if spec_stop_match(text, phrase) {
        let i = lemma_suffix_norm_with_len(text, np.len());
        assert(text =~= text.take(i as int) + text.skip(i as int));
        lemma_normalize_concat(text.take(i as int), text.skip(i as int));
        assert(spec_normalize(text.skip(i as int)) =~= np);
        lemma_find_cut_complete(text, phrase, text.len(), i);
    }
}

/// Whitespace for trimming purposes.
pub open spec fn spec_is_space(c: char) -> bool {
    c == ' ' || c == '\t' || c == '\n' || c == '\r'
}

/// `s` without its trailing whitespace.
pub open spec fn spec_trim_end(s: Seq<char>) -> Seq<char>
    decreases s.len(),
{
    if s.len() > 0 && spec_is_space(s.last()) {
        spec_trim_end(s.drop_last())
    } else {
        s
    }
}

/// `s` without its leading whitespace.
pub open spec fn spec_trim_start(s: Seq<char>) -> Seq<char>
    decreases s.len(),
{
    if s.len() > 0 && spec_is_space(s.first()) {
        spec_trim_start(s.drop_first())
    } else {
        s
    }
}

/// `s` without leading and trailing whitespace.
pub open spec fn spec_trim(s: Seq<char>) -> Seq<char> {
    spec_trim_start(spec_trim_end(s))
}

/// Lowercase an ASCII letter; keep any other character.
pub fn lower_char(c: char) -> (r: char)
    ensures
        r == spec_lower_char(c),
{
    let u = c as u32;
    if 65 <= u && u <= 90 {
        ((u + 32) as u8) as char
    } else {
        c
    }
}

/// Whether trimming treats `c` as whitespace.
pub fn is_space_char(c: char) -> (r: bool)
    ensures
        r == spec_is_space(c),
{
    c == ' ' || c == '\t' || c == '\n' || c == '\r'
}

/// The normalized form of a text, character by character.
pub fn normalize_text(s: &str) -> (out: Vec<char>)
    ensures
        out@ == spec_normalize(s@),
{
    let n = s.unicode_len();
    let mut out: Vec<char> = Vec::new();
    let mut i: usize = 0;
    while i < n
        invariant
            i <= n,
            n == s@.len(),
            out@ == spec_normalize(s@.take(i as int)),
        decreases n - i,
    {
        let c = s.get_char(i);
        let lc = lower_char(c);
        if !(lc == '.' || lc == '\'') {
            out.push(lc);
        }
        proof {
            let t = s@.take(i + 1);
            assert(t.drop_last() =~= s@.take(i as int));
            assert(t.last() == s@[i as int]);
        }
        i = i + 1;
    }
    proof {
        assert(s@.take(n as int) =~= s@);
    }
    out
}

/// Character-sequence equality.
pub fn chars_eq(a: &Vec<char>, b: &Vec<char>) -> (r: bool)
    ensures
        r == (a@ == b@),
{
    if a.len() != b.len() {
        return false;
    }
    let mut i: usize = 0;
    while i < a.len()
        invariant
            i <= a.len(),
            a@.len() == b@.len(),
            forall|j: int| 0 <= j < i ==> a@[j] == b@[j],
        decreases a.len() - i,
    {
        if a[i] != b[i] {
            return false;
        }
        i = i + 1;
    }
    proof {
        assert(a@ =~= b@);
    }
    true
}

/// Whether `v` ends with `suffix`.
pub fn ends_with_chars(v: &Vec<char>, suffix: &Vec<char>) -> (r: bool)
    ensures
        r == spec_ends_with(v@, suffix@),
{
    if v.len() < suffix.len() {
        return false;
    }
    let off = v.len() - suffix.len();
    let mut i: usize = 0;
    while i < suffix.len()
        invariant
            i <= suffix.len(),
            off == v@.len() - suffix@.len(),
            v@.len() >= suffix@.len(),
            forall|j: int| 0 <= j < i ==> v@[off + j] == suffix@[j],
        decreases suffix.len() - i,
    {
        proof {
            assert(v.len() == v@.len());
        }
        if v[off + i] != suffix[i] {
            proof {
                let sub = v@.subrange(off as int, v@.len() as int);
                assert(sub[i as int] == v@[off + i]);
            }
            return false;
        }
        i = i + 1;
    }
    proof {
        assert(v@.subrange(off as int, v@.len() as int) =~= suffix@);
    }
    true
}

/// Whether the text ends, after normalization, with the stop phrase.
pub fn matches_stop_phrase(text: &str, phrase: &str) -> (r: bool)
    ensures
        r == spec_stop_match(text@, phrase@),
{
    let norm_text = normalize_text(text);
    let norm_phrase = normalize_text(phrase);
    ends_with_chars(&norm_text, &norm_phrase)
}

/// Strip a trailing stop phrase: find the largest cut point whose
/// suffix normalizes to the phrase, drop the suffix, and drop the
/// whitespace left hanging before it.  `None` when no suffix of the
/// text normalizes to the phrase.
pub fn strip_stop_phrase(text: &str, phrase: &str) -> (r: Option<String>)
    ensures
        r is Some <==> spec_cut(text@, phrase@) is Some,
        r matches Some(s) ==> spec_cut(text@, phrase@) matches Some(cut) && s@ == spec_trim_end(
            text@.take(cut as int),
        ),
{
    let n = text.unicode_len();
    let norm_phrase = normalize_text(phrase);
    let mut i: usize = n;
    loop
        invariant
            i <= n,
            n == text@.len(),
            norm_phrase@ == spec_normalize(phrase@),
            spec_find_cut(text@, phrase@, n as nat) == spec_find_cut(text@, phrase@, i as nat),
        decreases i,
    {
        let suffix = text.substring_char(i, n);
        let norm_suffix = normalize_text(suffix);
        if chars_eq(&norm_suffix, &norm_phrase) {
            proof {
                assert(suffix@ =~= text@.skip(i as int));
                assert(spec_find_cut(text@, phrase@, i as nat) == Some(i as nat));
            }
            let mut b: usize = i;
            while b > 0 && is_space_char(text.get_char(b - 1))
                invariant
                    b <= i,
                    i <= n,
                    n == text@.len(),
                    spec_trim_end(text@.take(i as int)) == spec_trim_end(text@.take(b as int)),
                decreases b,
            {
                proof {
                    let t = text@.take(b as int);
                    assert(t.last() == text@[b - 1]);
                    assert(t.drop_last() =~= text@.take(b - 1));
                }
                b = b - 1;
            }
            proof {
                let t = text@.take(b as int);
                if b > 0 {
                    assert(t.last() == text@[b - 1]);
                }
                assert(spec_trim_end(t) == t);
            }
            let prefix = text.substring_char(0, b);
            let out = prefix.to_owned();
            proof {
                assert(prefix@ =~= text@.take(b as int));
            }
            return Some(out);
        }
        if i == 0 {
            return None;
        }
        i = i - 1;
    }
}

/// `s` with leading and trailing whitespace removed.
pub fn trim_spaces(s: &str) -> (r: String)
    ensures
        r@ == spec_trim(s@),
{
    let n = s.unicode_len();
    proof {
        assert(s@.take(n as int) =~= s@);
    }
    let mut b: usize = n;
    while b > 0 && is_space_char(s.get_char(b - 1))
        invariant
            b <= n,
            n == s@.len(),
            spec_trim_end(s@) == spec_trim_end(s@.take(b as int)),
        decreases b,
    {
        proof {
            let t = s@.take(b as int);
            assert(t.last() == s@[b - 1]);
            assert(t.drop_last() =~= s@.take(b - 1));
        }
        b = b - 1;
    }
    proof {
        let t = s@.take(b as int);
        if b > 0 {
            assert(t.last() == s@[b - 1]);
        }
        assert(spec_trim_end(s@) == t);
        assert(s@.take(b as int).skip(0) =~= s@.take(b as int));
    }
    let mut a: usize = 0;
    while a < b && is_space_char(s.get_char(a))
        invariant
            a <= b,
            b <= n,
            n == s@.len(),
            spec_trim_end(s@) == s@.take(b as int),
            spec_trim(s@) == spec_trim_start(s@.take(b as int).skip(a as int)),
        decreases b - a,
    {
        proof {
            let t = s@.take(b as int).skip(a as int);
            assert(t.first() == s@[a as int]);
            assert(t.drop_first() =~= s@.take(b as int).skip(a + 1));
        }
        a = a + 1;
    }
    proof {
        let t = s@.take(b as int).skip(a as int);
        if a < b {
            assert(t.first() == s@[a as int]);
        }
        assert(spec_trim_start(t) == t);
        assert(t =~= s@.subrange(a as int, b as int));
    }
    let mid = s.substring_char(a, b);
    mid.to_owned()
}

/// Texts joined in order with a single space between non-empty texts;
/// empty texts leave no mark.
pub open spec fn spec_join_texts(ts: Seq<Seq<char>>) -> Seq<char>
    decreases ts.len(),
{
    if ts.len() == 0 {
        Seq::empty()
    } else {
        let rest = spec_join_texts(ts.drop_last());
        let t = ts.last();
        if t.len() == 0 {
            rest
        } else if rest.len() == 0 {
            t
        } else {
            rest + seq![' '] + t
        }
    }
}

/// Join strings with a single space between non-empty entries.
pub fn join_strings(v: &Vec<String>) -> (r: String)
    ensures
        r@ == spec_join_texts(v.deep_view()),
{
    let ghost dv = v.deep_view();
    proof {
        assert(dv.take(0) =~= Seq::<Seq<char>>::empty());
    }
    let mut out = String::new();
    let mut i: usize = 0;
    while i < v.len()
        invariant
            i <= v@.len(),
            dv == v.deep_view(),
            dv.len() == v@.len(),
            out@ == spec_join_texts(dv.take(i as int)),
        decreases v@.len() - i,
    {
        let t = &v[i];
        proof {
            assert(dv.take(i + 1).drop_last() =~= dv.take(i as int));
            assert(dv.take(i + 1).last() == v@[i as int]@);
            reveal_strlit(" ");
            assert(" "@ =~= seq![' ']);
        }
        if !t.as_str().is_empty() {
            if out.as_str().is_empty() {
                out.append(t.as_str());
            } else {
                out.append(" ");
                out.append(t.as_str());
            }
        }
        i = i + 1;
    }
    proof {
        assert(dv.take(v@.len() as int) =~= dv);
    }
    out
}

/// The character for one decimal digit.
pub open spec fn spec_digit_char(d: int) -> char {
    if d == 0 {
        '0'
    } else if d == 1 {
        '1'
    } else if d == 2 {
        '2'
    } else if d == 3 {
        '3'
    } else if d == 4 {
        '4'
    } else if d == 5 {
        '5'
    } else if d == 6 {
        '6'
    } else if d == 7 {
        '7'
    } else if d == 8 {
        '8'
    } else {
        '9'
    }
}

/// Decimal rendering of a number, most significant digit first.
pub open spec fn spec_decimal(n: nat) -> Seq<char>
    decreases n,
{
    if n < 10 {
        seq![spec_digit_char(n as int)]
    } else {
        spec_decimal(n / 10).push(spec_digit_char((n % 10) as int))
    }
}

/// Decimal rendering padded on the left to at least two digits, the
/// form a recording clock shows.
pub open spec fn spec_two_digit(n: nat) -> Seq<char> {
    if n < 10 {
        seq!['0', spec_digit_char(n as int)]
    } else {
        spec_decimal(n)
    }
}

/// One decimal digit as a string slice.
pub fn digit_str(d: u64) -> (r: &'static str)
    requires
        d < 10,
    ensures
        r@ =~= seq![spec_digit_char(d as int)],
{
    if d == 0 {
        proof {
            reveal_strlit("0");
        }
        "0"
    } else if d == 1 {
        proof {
            reveal_strlit("1");
        }
        "1"
    } else if d == 2 {
        proof {
            reveal_strlit("2");
        }
        "2"
    } else if d == 3 {
        proof {
            reveal_strlit("3");
        }
        "3"
    } else if d == 4 {
        proof {
            reveal_strlit("4");
        }
        "4"
    } else if d == 5 {
        proof {
            reveal_strlit("5");
        }
        "5"
    } else if d == 6 {
        proof {
            reveal_strlit("6");
        }
        "6"
    } else if d == 7 {
        proof {
            reveal_strlit("7");
        }
        "7"
    } else if d == 8 {
        proof {
            reveal_strlit("8");
        }
        "8"
    } else {
        proof {
            reveal_strlit("9");
        }
        "9"
    }
}

/// Decimal rendering of `n`.
pub fn decimal_string(n: u64) -> (r: String)
    ensures
        r@ == spec_decimal(n as nat),
{
    if n < 10 {
        return String::from_str(digit_str(n));
    }
    let mut acc = String::new();
    let mut m: u64 = n;
    while m >= 10
        invariant
            spec_decimal(n as nat) == spec_decimal(m as nat) + acc@,
        decreases m,
    {
        let d = m % 10;
        let piece = String::from_str(digit_str(d));
        let joined = piece.concat(acc.as_str());
        proof {
            assert(spec_decimal(m as nat) + acc@ =~= spec_decimal((m / 10) as nat) + (seq![
                spec_digit_char((m % 10) as int),
            ] + acc@));
        }
        acc = joined;
        m = m / 10;
    }
    let lead = String::from_str(digit_str(m));
    let out = lead.concat(acc.as_str());
    proof {
        assert(out@ =~= spec_decimal(n as nat));
    }
    out
}

/// Decimal rendering padded to at least two digits.
pub fn two_digit_string(n: u64) -> (r: String)
    ensures
        r@ == spec_two_digit(n as nat),
{
    if n < 10 {
        proof {
            reveal_strlit("0");
        }
        let lead = String::from_str("0");
        let out = lead.concat(digit_str(n));
        proof {
            assert(out@ =~= seq!['0', spec_digit_char(n as int)]);
        }
        out
    } else {
        decimal_string(n)
    }
}

} // verus!
