//! Character-level text utilities: whitespace handling, trimming, collapsing
//! runs of whitespace, decimal parsing and printing, and the small rewrites
//! that file names need.

use vstd::prelude::*;

verus! {

/// Whether a character counts as whitespace: the Unicode `White_Space` set.
pub open spec fn is_space_char(c: char) -> bool {
    c == ' ' || c == '\t' || c == '\n' || c == '\r' || c == '\u{000B}' || c == '\u{000C}'
        || c == '\u{0085}' || c == '\u{00A0}' || c == '\u{1680}' || c == '\u{2000}'
        || c == '\u{2001}' || c == '\u{2002}' || c == '\u{2003}' || c == '\u{2004}'
        || c == '\u{2005}' || c == '\u{2006}' || c == '\u{2007}' || c == '\u{2008}'
        || c == '\u{2009}' || c == '\u{200A}' || c == '\u{2028}' || c == '\u{2029}'
        || c == '\u{202F}' || c == '\u{205F}' || c == '\u{3000}'
}

/// Decides whitespace exactly as `is_space_char` describes it.
pub fn is_space(c: char) -> (r: bool)
    ensures
        r == is_space_char(c),
{
    c == ' ' || c == '\t' || c == '\n' || c == '\r' || c == '\u{000B}' || c == '\u{000C}'
        || c == '\u{0085}' || c == '\u{00A0}' || c == '\u{1680}' || c == '\u{2000}'
        || c == '\u{2001}' || c == '\u{2002}' || c == '\u{2003}' || c == '\u{2004}'
        || c == '\u{2005}' || c == '\u{2006}' || c == '\u{2007}' || c == '\u{2008}'
        || c == '\u{2009}' || c == '\u{200A}' || c == '\u{2028}' || c == '\u{2029}'
        || c == '\u{202F}' || c == '\u{205F}' || c == '\u{3000}'
}

/// Appends one character to a string.
///
/// Relies on `String::push`, which appends the given character to the end of
/// the string.
#[verifier::external_body]
pub fn push_char(s: &mut String, c: char)
    ensures
        final(s)@ == old(s)@.push(c),
{
    s.push(c);
}

/// The characters of a string slice, as a vector.
pub fn chars_of(s: &str) -> (r: Vec<char>)
    ensures
        r@ == s@,
{
    let n = s.unicode_len();
    let mut r: Vec<char> = Vec::new();
    for i in 0..n
        invariant
            n == s@.len(),
            r@ == s@.take(i as int),
    {
        r.push(s.get_char(i));
        assert(r@ =~= s@.take(i + 1));
    }
    assert(r@ =~= s@);
    r
}

/// A string holding exactly the given characters.
pub fn string_of(v: &Vec<char>) -> (r: String)
    ensures
        r@ == v@,
{
    let mut r = String::new();
    let n = v.len();
    for i in 0..n
        invariant
            n == v@.len(),
            r@ == v@.take(i as int),
    {
        push_char(&mut r, v[i]);
        assert(r@ =~= v@.take(i + 1));
    }
    assert(r@ =~= v@);
    r
}

/// The sequence with its leading whitespace removed.
pub open spec fn drop_leading_ws(s: Seq<char>) -> Seq<char>
    decreases s.len(),
{
    if s.len() > 0 && is_space_char(s[0]) {
        drop_leading_ws(s.drop_first())
    } else {
        s
    }
}

/// The sequence with its trailing whitespace removed.
pub open spec fn drop_trailing_ws(s: Seq<char>) -> Seq<char>
    decreases s.len(),
{
    if s.len() > 0 && is_space_char(s.last()) {
        drop_trailing_ws(s.drop_last())
    } else {
        s
    }
}

/// The sequence with leading and trailing whitespace removed.
pub open spec fn trim_ws(s: Seq<char>) -> Seq<char> {
    drop_trailing_ws(drop_leading_ws(s))
}

proof fn lemma_drop_leading_ws_skip(s: Seq<char>, i: int)
    requires
        0 <= i <= s.len(),
        forall|j: int| 0 <= j < i ==> is_space_char(s[j]),
        i == s.len() || !is_space_char(s[i]),
    ensures
        drop_leading_ws(s) == s.skip(i),
    decreases i,
{
    if i == 0 {
        assert(s.skip(0) =~= s);
    } else {
        assert(is_space_char(s[0]));
        let t = s.drop_first();
        assert(t =~= s.skip(1));
        assert(forall|j: int| 0 <= j < i - 1 ==> is_space_char(t[j]));
        lemma_drop_leading_ws_skip(t, i - 1);
        assert(t.skip(i - 1) =~= s.skip(i));
    }
}

proof fn lemma_drop_trailing_ws_take(s: Seq<char>, i: int)
    requires
        0 <= i <= s.len(),
        forall|j: int| i <= j < s.len() ==> is_space_char(s[j]),
        i == 0 || !is_space_char(s[i - 1]),
    ensures
        drop_trailing_ws(s) == s.take(i),
    decreases s.len() - i,
{
    if i == s.len() {
        assert(s.take(i) =~= s);
    } else {
        assert(is_space_char(s.last()));
        let t = s.drop_last();
        assert(t =~= s.take(s.len() - 1));
        lemma_drop_trailing_ws_take(t, i);
        assert(t.take(i) =~= s.take(i));
    }
}

/// The vector's characters with leading and trailing whitespace removed.
pub fn trim_chars(v: &Vec<char>) -> (r: Vec<char>)
    ensures
        r@ == trim_ws(v@),
{
    let n = v.len();
    let mut start: usize = 0;
    while start < n && is_space(v[start])
        invariant
            n == v@.len(),
            start <= n,
            forall|j: int| 0 <= j < start ==> is_space_char(v@[j]),
        decreases n - start,
    {
        start += 1;
    }
    proof {
        lemma_drop_leading_ws_skip(v@, start as int);
    }
    let mut end: usize = n;
    while end > start && is_space(v[end - 1])
        invariant
            n == v@.len(),
            start <= end <= n,
            forall|j: int| end <= j < n ==> is_space_char(v@[j]),
            start == n || !is_space_char(v@[start as int]),
        decreases end,
    {
        end -= 1;
    }
    let ghost lead = v@.skip(start as int);
    proof {
        assert(forall|j: int| end - start <= j < lead.len() ==> is_space_char(#[trigger] lead[j]));
        if end > start {
            assert(!is_space_char(lead[end - start - 1]));
        }
        lemma_drop_trailing_ws_take(lead, end - start);
    }
    let mut r: Vec<char> = Vec::new();
    let mut i: usize = start;
    while i < end
        invariant
            start <= i <= end <= n,
            n == v@.len(),
            r@ == v@.subrange(start as int, i as int),
        decreases end - i,
    {
        r.push(v[i]);
        assert(r@ =~= v@.subrange(start as int, i + 1));
        i += 1;
    }
    proof {
        assert(lead.take(end - start) =~= v@.subrange(start as int, end as int));
    }
    r
}

proof fn lemma_drop_leading_ws_len(s: Seq<char>)
    ensures
        drop_leading_ws(s).len() <= s.len(),
        s.len() > 0 && is_space_char(s[0]) ==> drop_leading_ws(s).len() < s.len(),
    decreases s.len(),
{
    if s.len() > 0 && is_space_char(s[0]) {
        lemma_drop_leading_ws_len(s.drop_first());
    }
}

/// The sequence with every run of two or more whitespace characters replaced
/// by a single space; single whitespace characters are kept as they are.
pub open spec fn collapse_ws(s: Seq<char>) -> Seq<char>
    decreases s.len(),
    via collapse_ws_decreases
{
    if s.len() == 0 {
        Seq::empty()
    } else if s.len() >= 2 && is_space_char(s[0]) && is_space_char(s[1]) {
        seq![' '] + collapse_ws(drop_leading_ws(s))
    } else {
        seq![s[0]] + collapse_ws(s.drop_first())
    }
}

#[via_fn]
proof fn collapse_ws_decreases(s: Seq<char>) {
    if s.len() >= 2 && is_space_char(s[0]) && is_space_char(s[1]) {
        lemma_drop_leading_ws_len(s);
    }
}

/// The characters with every whitespace run of length two or more replaced by
/// one space.
pub fn collapse_chars(v: &Vec<char>) -> (r: Vec<char>)
    ensures
        r@ == collapse_ws(v@),
{
    let n = v.len();
    let mut r: Vec<char> = Vec::new();
    let mut i: usize = 0;
    proof {
        assert(v@.skip(0) =~= v@);
        assert(r@ + collapse_ws(v@) =~= collapse_ws(v@));
    }
    while i < n
        invariant
            n == v@.len(),
            i <= n,
            collapse_ws(v@) == r@ + collapse_ws(v@.skip(i as int)),
        decreases n - i,
    {
        let ghost rest = v@.skip(i as int);
        if is_space(v[i]) && i + 1 < n && is_space(v[i + 1]) {
            r.push(' ');
            let ghost start = i;
            while i < n && is_space(v[i])
                invariant
                    n == v@.len(),
                    start <= i <= n,
                    forall|j: int| start <= j < i ==> is_space_char(v@[j]),
                decreases n - i,
            {
                i += 1;
            }
            proof {
                assert(rest[0] == v@[start as int] && rest[1] == v@[start + 1]);
                assert(collapse_ws(rest) == seq![' '] + collapse_ws(drop_leading_ws(rest)));
                assert(forall|j: int| 0 <= j < i - start ==> is_space_char(#[trigger] rest[j]));
                lemma_drop_leading_ws_skip(rest, i - start);
                assert(rest.skip(i - start) =~= v@.skip(i as int));
                assert(r@ == (r@.drop_last() + seq![' ']));
                assert(r@ + collapse_ws(v@.skip(i as int)) =~= r@.drop_last() + collapse_ws(rest));
            }
        } else {
            r.push(v[i]);
            proof {
                assert(collapse_ws(rest) == seq![rest[0]] + collapse_ws(rest.drop_first()));
                assert(rest.drop_first() =~= v@.skip(i + 1));
                assert(r@ + collapse_ws(v@.skip(i + 1)) =~= r@.drop_last() + collapse_ws(rest));
            }
            i += 1;
        }
    }
    proof {
        assert(v@.skip(n as int) =~= Seq::<char>::empty());
        assert(r@ + collapse_ws(v@.skip(n as int)) =~= r@);
    }
    r
}

/// Whether a character is a decimal digit.
pub open spec fn is_digit_char(c: char) -> bool {
    48 <= c as u32 && c as u32 <= 57
}

/// The numeric value of a decimal digit character.
pub open spec fn digit_val(c: char) -> nat
    recommends
        is_digit_char(c),
{
    (c as u32 - 48) as nat
}

/// The decimal digit character for a value below ten.
pub open spec fn digit_char(d: nat) -> char
    recommends
        d < 10,
{
    if d == 0 {
        '0'
    } else if d == 1 {
        '1'
    } else if d == 2 {
        '2'
    } else if d == 3 {
        '3'
    } else if d == 4 {
        '4'
    } else if d == 5 {
        '5'
    } else if d == 6 {
        '6'
    } else if d == 7 {
        '7'
    } else if d == 8 {
        '8'
    } else {
        '9'
    }
}

/// Whether every character of the sequence is a decimal digit.
pub open spec fn all_digits(s: Seq<char>) -> bool {
    forall|i: int| 0 <= i < s.len() ==> is_digit_char(s[i])
}

/// The value of a sequence of decimal digits, most significant first.
pub open spec fn digits_val(s: Seq<char>) -> nat
    decreases s.len(),
{
    if s.len() == 0 {
        0
    } else {
        digits_val(s.drop_last()) * 10 + digit_val(s.last())
    }
}

/// The part of a numeric string after its optional leading `+` sign.
pub open spec fn digits_part(s: Seq<char>) -> Seq<char> {
    if s.len() > 0 && s[0] == '+' {
        s.drop_first()
    } else {
        s
    }
}

/// What parsing a string as a non-negative machine integer yields: after an
/// optional leading `+`, at least one decimal digit and nothing else, and a
/// value that fits; otherwise nothing.
pub open spec fn parse_u32_spec(s: Seq<char>) -> Option<u32> {
    let d = digits_part(s);
    if d.len() > 0 && all_digits(d) && digits_val(d) <= u32::MAX {
        Some(digits_val(d) as u32)
    } else {
        None
    }
}

/// The canonical decimal spelling of a number: no sign, no leading zero
/// except for the number zero itself.
pub open spec fn dec_of(n: nat) -> Seq<char>
    decreases n,
{
    if n < 10 {
        seq![digit_char(n)]
    } else {
        dec_of(n / 10) + seq![digit_char(n % 10)]
    }
}

proof fn lemma_digits_val_take_le(s: Seq<char>, k: int)
    requires
        0 <= k <= s.len(),
    ensures
        digits_val(s.take(k)) <= digits_val(s),
    decreases s.len(),
{
    if k < s.len() {
        let t = s.drop_last();
        assert(s.take(k) =~= t.take(k));
        lemma_digits_val_take_le(t, k);
        assert(digits_val(t) * 10 >= digits_val(t));
    } else {
        assert(s.take(k) =~= s);
    }
}

/// Decides whether a character is a decimal digit.
pub fn is_digit(c: char) -> (r: bool)
    ensures
        r == is_digit_char(c),
{
    let u = c as u32;
    48 <= u && u <= 57
}

/// Parses the characters as a non-negative integer, exactly as
/// `parse_u32_spec` describes.
pub fn parse_u32(v: &Vec<char>) -> (r: Option<u32>)
    ensures
        r == parse_u32_spec(v@),
{
    let n = v.len();
    let start: usize = if n > 0 && v[0] == '+' {
        1
    } else {
        0
    };
    let ghost d = digits_part(v@);
    proof {
        assert(d =~= v@.subrange(start as int, n as int));
    }
    if start == n {
        return None;
    }
    let mut acc: u32 = 0;
    let mut i: usize = start;
    proof {
        assert(d.take(0) =~= Seq::<char>::empty());
    }
    while i < n
        invariant
            start <= i <= n,
            n == v@.len(),
            d == digits_part(v@),
            d == v@.subrange(start as int, n as int),
            forall|j: int| 0 <= j < i - start ==> is_digit_char(d[j]),
            acc == digits_val(d.take(i - start)),
        decreases n - i,
    {
        let c = v[i];
        assert(c == d[i - start]);
        if !is_digit(c) {
            assert(!all_digits(d));
            return None;
        }
        let u = c as u32;
        assert(u >= 48);
        let dig: u32 = u - 48;
        if acc > (u32::MAX - dig) / 10 {
            // The value no longer fits; whatever follows, the parse fails.
            proof {
                assert(acc * 10 + dig > u32::MAX) by (nonlinear_arith)
                    requires
                        acc > (u32::MAX - dig) / 10,
                        dig <= u32::MAX,
                ;
                assert(d.take(i - start + 1).drop_last() =~= d.take(i - start));
                assert(d.take(i - start + 1).last() == d[i - start]);
                assert(digits_val(d.take(i - start + 1)) > u32::MAX);
                if all_digits(d) {
                    lemma_digits_val_take_le(d, i - start + 1);
                }
            }
            return None;
        }
        proof {
            assert(acc * 10 + dig <= u32::MAX) by (nonlinear_arith)
                requires
                    acc <= (u32::MAX - dig) / 10,
                    dig <= u32::MAX,
            ;
            assert(d.take(i - start + 1).drop_last() =~= d.take(i - start));
            assert(d.take(i - start + 1).last() == d[i - start]);
        }
        acc = acc * 10 + dig;
        i += 1;
    }
    proof {
        assert(d.take(n - start) =~= d);
        assert(all_digits(d));
    }
    Some(acc)
}

/// Prints a number in canonical decimal, exactly as `dec_of` describes.
pub fn dec_chars(n: u32) -> (r: Vec<char>)
    ensures
        r@ == dec_of(n as nat),
{
    let mut rev: Vec<char> = Vec::new();
    let mut m: u32 = n;
    proof {
        assert(dec_of(n as nat) =~= dec_of(n as nat) + rev@.reverse());
    }
    loop
        invariant_except_break
            rev@.len() > 0 ==> m > 0,
            dec_of(n as nat) == dec_of(m as nat) + rev@.reverse(),
        ensures
            dec_of(n as nat) == rev@.reverse(),
        decreases m,
    {
        let dig: u32 = m % 10;
        let c = digit_of(dig);
        let ghost old_rev = rev@;
        let ghost old_m = m as nat;
        rev.push(c);
        m = m / 10;
        proof {
            assert(rev@ =~= old_rev.push(digit_char(old_m % 10)));
            assert(rev@.reverse() =~= seq![digit_char(old_m % 10)] + old_rev.reverse());
            if old_m >= 10 {
                assert(dec_of(old_m) == dec_of(old_m / 10) + seq![digit_char(old_m % 10)]);
                assert(dec_of(m as nat) + rev@.reverse() =~= dec_of(old_m) + old_rev.reverse());
            } else {
                assert(old_m % 10 == old_m);
                assert(dec_of(old_m) == seq![digit_char(old_m)]);
                assert(rev@.reverse() =~= dec_of(old_m) + old_rev.reverse());
            }
        }
        if m == 0 {
            proof {
                assert(old_m < 10);
            }
            break;
        }
    }
    let mut r: Vec<char> = Vec::new();
    let k = rev.len();
    for i in 0..k
        invariant
            k == rev@.len(),
            dec_of(n as nat) == rev@.reverse(),
            r@ == rev@.reverse().take(i as int),
    {
        r.push(rev[k - 1 - i]);
        assert(r@ =~= rev@.reverse().take(i + 1));
    }
    proof {
        assert(rev@.reverse().take(k as int) =~= rev@.reverse());
    }
    r
}

/// Whether two string slices hold the same characters.
pub fn str_eq(a: &str, b: &str) -> (r: bool)
    ensures
        r == (a@ == b@),
{
    let n = a.unicode_len();
    if n != b.unicode_len() {
        return false;
    }
    for i in 0..n
        invariant
            n == a@.len() && n == b@.len(),
            forall|j: int| 0 <= j < i ==> a@[j] == b@[j],
    {
        if a.get_char(i) != b.get_char(i) {
            return false;
        }
    }
    proof {
        assert(a@ =~= b@);
    }
    true
}

/// The position of the first run of four decimal digits at or after `i`.
pub open spec fn find_four(s: Seq<char>, i: int) -> Option<int>
    recommends
        0 <= i <= s.len(),
    decreases s.len() - i,
{
    if i < 0 || i + 4 > s.len() {
        None
    } else if is_digit_char(s[i]) && is_digit_char(s[i + 1]) && is_digit_char(s[i + 2])
        && is_digit_char(s[i + 3]) {
        Some(i)
    } else {
        find_four(s, i + 1)
    }
}

/// The first four-digit run of the text, or the whole text unchanged when it
/// has none.
pub open spec fn year_of(s: Seq<char>) -> Seq<char> {
    match find_four(s, 0) {
        Some(i) => s.subrange(i, i + 4),
        None => s,
    }
}

/// Extracts the first four-digit run, exactly as `year_of` describes.
pub fn year_chars(v: &Vec<char>) -> (r: Vec<char>)
    ensures
        r@ == year_of(v@),
{
    let n = v.len();
    let mut i: usize = 0;
    while n >= 4 && i <= n - 4
        invariant
            n == v@.len(),
            i <= n,
            find_four(v@, 0) == find_four(v@, i as int),
        decreases n - i,
    {
        if is_digit(v[i]) && is_digit(v[i + 1]) && is_digit(v[i + 2]) && is_digit(v[i + 3]) {
            let mut r: Vec<char> = Vec::new();
            r.push(v[i]);
            r.push(v[i + 1]);
            r.push(v[i + 2]);
            r.push(v[i + 3]);
            assert(r@ =~= v@.subrange(i as int, i + 4));
            return r;
        }
        i += 1;
    }
    let mut r: Vec<char> = Vec::new();
    for k in 0..n
        invariant
            n == v@.len(),
            r@ == v@.take(k as int),
    {
        r.push(v[k]);
        assert(r@ =~= v@.take(k + 1));
    }
    proof {
        assert(r@ =~= v@);
    }
    r
}

/// The title with the characters `:` and `/` each replaced by a space.
pub open spec fn sanitize_title(s: Seq<char>) -> Seq<char> {
    s.map(|i: int, c: char| if c == ':' || c == '/' { ' ' } else { c })
}

/// Replaces `:` and `/` by spaces, exactly as `sanitize_title` describes.
pub fn sanitize_chars(v: &Vec<char>) -> (r: Vec<char>)
    ensures
        r@ == sanitize_title(v@),
{
    let n = v.len();
    let mut r: Vec<char> = Vec::new();
    proof {
        assert(r@ =~= sanitize_title(v@.take(0)));
    }
    for i in 0..n
        invariant
            n == v@.len(),
            r@ == sanitize_title(v@.take(i as int)),
    {
        let c = v[i];
        if c == ':' || c == '/' {
            r.push(' ');
        } else {
            r.push(c);
        }
        assert(r@ =~= sanitize_title(v@.take(i + 1)));
    }
    proof {
        assert(v@.take(n as int) =~= v@);
    }
    r
}

/// A track number left-padded with zeros to at least two characters.
pub open spec fn pad_track(s: Seq<char>) -> Seq<char> {
    if s.len() >= 2 {
        s
    } else if s.len() == 1 {
        seq!['0'] + s
    } else {
        seq!['0', '0']
    }
}

/// Left-pads with zeros to two characters, exactly as `pad_track` describes.
pub fn pad_track_chars(v: &Vec<char>) -> (r: Vec<char>)
    ensures
        r@ == pad_track(v@),
{
    let mut r: Vec<char> = Vec::new();
    if v.len() == 0 {
        r.push('0');
        r.push('0');
        assert(r@ =~= pad_track(v@));
    } else if v.len() == 1 {
        r.push('0');
        r.push(v[0]);
        assert(r@ =~= pad_track(v@));
    } else {
        let n = v.len();
        for i in 0..n
            invariant
                n == v@.len(),
                r@ == v@.take(i as int),
        {
            r.push(v[i]);
            assert(r@ =~= v@.take(i + 1));
        }
        assert(r@ =~= v@);
    }
    r
}

/// The decimal digit character for a machine value below ten.
fn digit_of(d: u32) -> (c: char)
    requires
        d < 10,
    ensures
        c == digit_char(d as nat),
{
    if d == 0 {
        '0'
    } else if d == 1 {
        '1'
    } else if d == 2 {
        '2'
    } else if d == 3 {
        '3'
    } else if d == 4 {
        '4'
    } else if d == 5 {
        '5'
    } else if d == 6 {
        '6'
    } else if d == 7 {
        '7'
    } else if d == 8 {
        '8'
    } else {
        '9'
    }
}

proof fn lemma_digit_not_space(c: char)
    requires
        is_digit_char(c),
    ensures
        !is_space_char(c),
{
}

/// Canonical decimal strings consist of digits and never start with a
/// superfluous zero.
pub proof fn lemma_dec_of_digits(n: nat)
    ensures
        dec_of(n).len() >= 1,
        all_digits(dec_of(n)),
        n > 0 ==> dec_of(n)[0] != '0',
        dec_of(n)[0] != '+',
    decreases n,
{
    if n < 10 {
        assert(dec_of(n) =~= seq![digit_char(n)]);
    } else {
        lemma_dec_of_digits(n / 10);
        assert forall|i: int| 0 <= i < dec_of(n).len() implies is_digit_char(dec_of(n)[i]) by {
            if i < dec_of(n / 10).len() {
                assert(dec_of(n)[i] == dec_of(n / 10)[i]);
            } else {
                assert(dec_of(n)[i] == digit_char(n % 10));
            }
        }
    }
}

proof fn lemma_digit_char_val(d: nat)
    requires
        d < 10,
    ensures
        is_digit_char(digit_char(d)),
        digit_val(digit_char(d)) == d,
{
}

/// Printing a number and reading the digits back yields the number itself.
pub proof fn lemma_digits_val_dec_of(n: nat)
    ensures
        digits_val(dec_of(n)) == n,
    decreases n,
{
    if n < 10 {
        lemma_digit_char_val(n);
        assert(dec_of(n) == seq![digit_char(n)]);
        assert(dec_of(n).len() == 1);
        assert(dec_of(n).drop_last() =~= Seq::<char>::empty());
        assert(dec_of(n).last() == digit_char(n));
        assert(digits_val(Seq::<char>::empty()) == 0);
        assert(digits_val(dec_of(n)) == digits_val(dec_of(n).drop_last()) * 10 + digit_val(
            dec_of(n).last(),
        ));
    } else {
        lemma_digits_val_dec_of(n / 10);
        lemma_digit_char_val(n % 10);
        assert(dec_of(n).len() == dec_of(n / 10).len() + 1);
        assert(dec_of(n).drop_last() =~= dec_of(n / 10));
        assert(dec_of(n).last() == digit_char(n % 10));
        assert(digits_val(dec_of(n)) == digits_val(dec_of(n).drop_last()) * 10 + digit_val(
            dec_of(n).last(),
        ));
        assert(digits_val(dec_of(n)) == (n / 10) * 10 + (n % 10));
        assert((n / 10) * 10 + (n % 10) == n) by (nonlinear_arith);
    }
}

/// Parsing the canonical decimal spelling of a number gives the number back.
pub proof fn lemma_parse_dec_roundtrip(n: u32)
    ensures
        parse_u32_spec(dec_of(n as nat)) == Some(n),
{
    lemma_dec_of_digits(n as nat);
    lemma_digits_val_dec_of(n as nat);
    assert(digits_part(dec_of(n as nat)) == dec_of(n as nat));
}

/// A string of digits carries no surrounding whitespace to trim.
pub proof fn lemma_trim_digits(s: Seq<char>)
    requires
        all_digits(s),
    ensures
        trim_ws(s) == s,
{
    if s.len() > 0 {
        lemma_digit_not_space(s[0]);
        lemma_digit_not_space(s.last());
    }
}

proof fn lemma_drop_leading_ws_props(s: Seq<char>)
    ensures
        drop_leading_ws(s).len() > 0 ==> !is_space_char(drop_leading_ws(s)[0]),
        s.len() > 0 && !is_space_char(s.last()) ==> drop_leading_ws(s).len() > 0
            && drop_leading_ws(s).last() == s.last(),
    decreases s.len(),
{
    if s.len() > 0 && is_space_char(s[0]) {
        lemma_drop_leading_ws_props(s.drop_first());
    }
}

proof fn lemma_drop_trailing_ws_props(s: Seq<char>)
    ensures
        drop_trailing_ws(s).len() > 0 ==> !is_space_char(drop_trailing_ws(s).last()),
        drop_trailing_ws(s).len() <= s.len(),
        forall|i: int|
            0 <= i < drop_trailing_ws(s).len() ==> #[trigger] drop_trailing_ws(s)[i] == s[i],
        s.len() > 0 && !is_space_char(s[0]) ==> drop_trailing_ws(s).len() > 0,
    decreases s.len(),
{
    if s.len() > 0 && is_space_char(s.last()) {
        lemma_drop_trailing_ws_props(s.drop_last());
    }
}

/// A trimmed string is empty or begins and ends with non-whitespace.
pub proof fn lemma_trim_ends(s: Seq<char>)
    ensures
        trim_ws(s).len() > 0 ==> !is_space_char(trim_ws(s)[0]) && !is_space_char(
            trim_ws(s).last(),
        ),
{
    lemma_drop_leading_ws_props(s);
    lemma_drop_trailing_ws_props(drop_leading_ws(s));
}

/// Whether a sequence holds no two adjacent whitespace characters.
pub open spec fn no_double_ws(s: Seq<char>) -> bool
    decreases s.len(),
{
    s.len() < 2 || (!(is_space_char(s[0]) && is_space_char(s[1])) && no_double_ws(s.drop_first()))
}

proof fn lemma_collapse_first(s: Seq<char>)
    requires
        s.len() > 0,
        !is_space_char(s[0]),
    ensures
        collapse_ws(s).len() > 0,
        collapse_ws(s)[0] == s[0],
{
    assert(collapse_ws(s) == seq![s[0]] + collapse_ws(s.drop_first()));
}

proof fn lemma_collapse_last(s: Seq<char>)
    requires
        s.len() > 0,
        !is_space_char(s.last()),
    ensures
        collapse_ws(s).len() > 0,
        collapse_ws(s).last() == s.last(),
    decreases s.len(),
{
    if s.len() >= 2 && is_space_char(s[0]) && is_space_char(s[1]) {
        let t = drop_leading_ws(s);
        lemma_drop_leading_ws_props(s);
        lemma_drop_leading_ws_len(s);
        lemma_collapse_last(t);
        assert(collapse_ws(s).last() == (seq![' '] + collapse_ws(t)).last());
    } else if s.len() == 1 {
        assert(collapse_ws(s) == seq![s[0]] + collapse_ws(s.drop_first()));
        assert(collapse_ws(s.drop_first()) =~= Seq::<char>::empty());
        assert(collapse_ws(s) =~= seq![s[0]]);
    } else {
        let t = s.drop_first();
        assert(t.last() == s.last());
        lemma_collapse_last(t);
        assert(collapse_ws(s) == seq![s[0]] + collapse_ws(t));
    }
}

proof fn lemma_no_double_ws_cons(c: char, s: Seq<char>)
    requires
        no_double_ws(s),
        s.len() > 0 ==> !(is_space_char(c) && is_space_char(s[0])),
    ensures
        no_double_ws(seq![c] + s),
{
    let r = seq![c] + s;
    if r.len() >= 2 {
        assert(r[0] == c && r[1] == s[0]);
        assert(r.drop_first() =~= s);
    }
}

proof fn lemma_collapse_no_double(s: Seq<char>)
    ensures
        no_double_ws(collapse_ws(s)),
    decreases s.len(),
{
    if s.len() == 0 {
    } else if s.len() >= 2 && is_space_char(s[0]) && is_space_char(s[1]) {
        let t = drop_leading_ws(s);
        lemma_drop_leading_ws_props(s);
        lemma_drop_leading_ws_len(s);
        lemma_collapse_no_double(t);
        let r1 = collapse_ws(t);
        if t.len() > 0 {
            lemma_collapse_first(t);
        } else {
            assert(r1 =~= Seq::<char>::empty());
        }
        lemma_no_double_ws_cons(' ', r1);
    } else {
        let t = s.drop_first();
        lemma_collapse_no_double(t);
        let r1 = collapse_ws(t);
        if is_space_char(s[0]) && t.len() > 0 {
            // A lone whitespace character: what follows it is not whitespace.
            assert(!is_space_char(s[1]));
            lemma_collapse_first(t);
        }
        if t.len() == 0 {
            assert(r1 =~= Seq::<char>::empty());
        }
        lemma_no_double_ws_cons(s[0], r1);
    }
}

proof fn lemma_collapse_of_clean(s: Seq<char>)
    requires
        no_double_ws(s),
    ensures
        collapse_ws(s) == s,
    decreases s.len(),
{
    if s.len() == 0 {
        assert(collapse_ws(s) =~= s);
    } else {
        let t = s.drop_first();
        lemma_collapse_of_clean(t);
        assert(collapse_ws(s) =~= s);
    }
}

/// Trimming and collapsing whitespace reaches a fixed point after one pass:
/// doing it again changes nothing.
pub proof fn lemma_format_ws_fixpoint(s: Seq<char>)
    ensures
        collapse_ws(trim_ws(collapse_ws(trim_ws(s)))) == collapse_ws(trim_ws(s)),
{
    let u = trim_ws(s);
    let t = collapse_ws(u);
    if u.len() == 0 {
        assert(t =~= Seq::<char>::empty());
        assert(trim_ws(t) =~= Seq::<char>::empty());
        assert(collapse_ws(trim_ws(t)) =~= t);
    } else {
        lemma_trim_ends(s);
        lemma_collapse_first(u);
        lemma_collapse_last(u);
        assert(drop_leading_ws(t) == t);
        assert(drop_trailing_ws(t) == t);
        assert(trim_ws(t) == t);
        lemma_collapse_no_double(u);
        lemma_collapse_of_clean(t);
    }
}

} // verus!
