//! Text helpers: strings are modelled by the sequence of their characters.
use vstd::prelude::*;

verus! {

/// The texts held by a sequence of strings.
pub open spec fn texts(v: Seq<String>) -> Seq<Seq<char>> {
    Seq::new(v.len(), |i: int| v[i]@)
}

/// The text of an optional string.
pub open spec fn opt_text(o: Option<String>) -> Option<Seq<char>> {
    match o {
        Some(s) => Some(s@),
        None => None,
    }
}

/// Pushing a string puts its text behind the others.
pub broadcast proof fn lemma_texts_push(v: Seq<String>, s: String)
    ensures
        #[trigger] texts(v.push(s)) == texts(v).push(s@),
{
    assert(texts(v.push(s)) =~= texts(v).push(s@));
}

/// The texts of two rows of strings after another.
pub broadcast proof fn lemma_texts_add(v: Seq<String>, w: Seq<String>)
    ensures
        #[trigger] texts(v + w) == texts(v) + texts(w),
{
    assert(texts(v + w) =~= texts(v) + texts(w));
}

/// A copy of a row of strings.
pub fn copy_strings(v: &Vec<String>) -> (r: Vec<String>)
    ensures
        r@ == v@,
{
    let mut r: Vec<String> = Vec::new();
    for i in 0..v.len()
        invariant
            r@ == v@.take(i as int),
    {
        r.push(v[i].clone());
        proof {
            assert(v@.take(i + 1) =~= v@.take(i as int).push(v@[i as int]));
        }
    }
    proof {
        assert(v@.take(v@.len() as int) =~= v@);
    }
    r
}

/// Puts copies of the strings of `more` behind those of `v`.
pub fn append_strings(v: &mut Vec<String>, more: &Vec<String>)
    ensures
        final(v)@ == old(v)@ + more@,
{
    let ghost before = v@;
    for i in 0..more.len()
        invariant
            v@ == before + more@.take(i as int),
    {
        v.push(more[i].clone());
        proof {
            assert(before + more@.take(i + 1) =~= (before + more@.take(i as int)).push(more@[i as int]));
        }
    }
    proof {
        assert(more@.take(more@.len() as int) =~= more@);
    }
}

/// Whether two rows of strings hold the same texts.
pub fn same_texts(a: &Vec<String>, b: &Vec<String>) -> (r: bool)
    ensures
        r == (texts(a@) == texts(b@)),
{
    if a.len() != b.len() {
        assert(texts(a@).len() != texts(b@).len());
        return false;
    }
    for i in 0..a.len()
        invariant
            a.len() == b.len(),
            forall|j: int| 0 <= j < i ==> texts(a@)[j] == texts(b@)[j],
    {
        if !same_text(a[i].as_str(), b[i].as_str()) {
            assert(texts(a@)[i as int] != texts(b@)[i as int]);
            return false;
        }
    }
    proof {
        assert(texts(a@) =~= texts(b@));
    }
    true
}

/// `String::push` puts one character behind the text.
pub assume_specification[ std::string::String::push ](s: &mut std::string::String, c: char)
    ensures
        final(s)@ == old(s)@.push(c),
;

/// Two texts after another.
pub fn cat2(a: &str, b: &str) -> (r: String)
    ensures
        r@ == a@ + b@,
{
    let mut r = a.to_owned();
    r.append(b);
    r
}

/// Three texts after another.
pub fn cat3(a: &str, b: &str, c: &str) -> (r: String)
    ensures
        r@ == a@ + b@ + c@,
{
    let mut r = cat2(a, b);
    r.append(c);
    r
}

/// Whether two texts are the same.
pub fn same_text(a: &str, b: &str) -> (r: bool)
    ensures
        r == (a@ == b@),
{
    a.to_owned() == b.to_owned()
}

/// The characters of a text.
pub fn chars_of(s: &str) -> (r: Vec<char>)
    ensures
        r@ == s@,
{
    let mut r: Vec<char> = Vec::new();
    for c in it: s.chars()
        invariant
            r@ == s@.take(it.index() as int),
            it.seq() == s@,
    {
        proof {
            assert(s@.take(it.index() + 1) =~= s@.take(it.index() as int).push(s@[it.index() as int]));
        }
        r.push(c);
    }
    proof {
        assert(s@.take(s@.len() as int) =~= s@);
    }
    r
}

/// Whether `c` is an ASCII decimal digit.
pub open spec fn is_digit(c: char) -> bool {
    '0' <= c <= '9'
}

/// Whether `c` is an ASCII letter or digit.
pub open spec fn is_alphanumeric(c: char) -> bool {
    is_digit(c) || 'a' <= c <= 'z' || 'A' <= c <= 'Z'
}

/// Whether `c` is an ASCII decimal digit.
pub fn char_is_digit(c: char) -> (r: bool)
    ensures
        r == is_digit(c),
{
    '0' <= c && c <= '9'
}

/// Whether `c` is an ASCII letter or digit.
pub fn char_is_alphanumeric(c: char) -> (r: bool)
    ensures
        r == is_alphanumeric(c),
{
    char_is_digit(c) || ('a' <= c && c <= 'z') || ('A' <= c && c <= 'Z')
}

/// The lower-case form of an ASCII capital; any other character as it is.
pub open spec fn lower(c: char) -> char {
    if 'A' <= c <= 'Z' {
        (c as u8 + 32) as char
    } else {
        c
    }
}

/// The lower-case form of an ASCII capital; any other character as it is.
pub fn char_lower(c: char) -> (r: char)
    ensures
        r == lower(c),
{
    if 'A' <= c && c <= 'Z' {
        (c as u8 + 32) as char
    } else {
        c
    }
}

/// A text with its ASCII capitals in lower case.
pub open spec fn lower_text(s: Seq<char>) -> Seq<char> {
    Seq::new(s.len(), |i: int| lower(s[i]))
}

/// A text with its ASCII capitals in lower case.
pub fn to_lower_text(s: &str) -> (r: String)
    ensures
        r@ == lower_text(s@),
{
    let v = chars_of(s);
    let mut r = String::new();
    for i in 0..v.len()
        invariant
            v@ == s@,
            r@ == lower_text(s@).take(i as int),
    {
        r.push(char_lower(v[i]));
        proof {
            assert(lower_text(s@).take(i + 1) =~= lower_text(s@).take(i as int).push(lower(s@[i as int])));
        }
    }
    proof {
        assert(lower_text(s@).take(s@.len() as int) =~= lower_text(s@));
    }
    r
}

/// Whether two texts differ at most in the case of their ASCII letters.
pub fn same_text_ignoring_case(a: &str, b: &str) -> (r: bool)
    ensures
        r == (lower_text(a@) == lower_text(b@)),
{
    to_lower_text(a) == to_lower_text(b)
}

/// Whether `c` has the Unicode property `White_Space`.
pub open spec fn is_space(c: char) -> bool {
    ||| 9 <= c as u32 <= 13
    ||| c as u32 == 0x20
    ||| c as u32 == 0x85
    ||| c as u32 == 0xA0
    ||| c as u32 == 0x1680
    ||| 0x2000 <= c as u32 <= 0x200A
    ||| c as u32 == 0x2028
    ||| c as u32 == 0x2029
    ||| c as u32 == 0x202F
    ||| c as u32 == 0x205F
    ||| c as u32 == 0x3000
}

/// Whether `c` has the Unicode property `White_Space`.
pub fn char_is_space(c: char) -> (r: bool)
    ensures
        r == is_space(c),
{
    let n: u32 = c as u32;
    (9 <= n && n <= 13) || n == 0x20 || n == 0x85 || n == 0xA0 || n == 0x1680 || (0x2000 <= n && n
        <= 0x200A) || n == 0x2028 || n == 0x2029 || n == 0x202F || n == 0x205F || n == 0x3000
}

/// A text without the white space at its start.
pub open spec fn trim_start(s: Seq<char>) -> Seq<char>
    decreases s.len(),
{
    if s.len() > 0 && is_space(s[0]) {
        trim_start(s.drop_first())
    } else {
        s
    }
}

/// A text without the white space at its end.
pub open spec fn trim_end(s: Seq<char>) -> Seq<char>
    decreases s.len(),
{
    if s.len() > 0 && is_space(s.last()) {
        trim_end(s.drop_last())
    } else {
        s
    }
}

/// A text without the white space at both ends.
pub open spec fn trimmed(s: Seq<char>) -> Seq<char> {
    trim_end(trim_start(s))
}

/// A text without the white space at both ends.
pub fn trim_text(s: &str) -> (r: String)
    ensures
        r@ == trimmed(s@),
{
    let v = chars_of(s);
    let mut from: usize = 0;
    proof {
        assert(s@.skip(0) =~= s@);
    }
    while from < v.len() && char_is_space(v[from])
        invariant
            v@ == s@,
            from <= v.len(),
            trim_start(s@.skip(from as int)) == trim_start(s@),
        decreases v.len() - from,
    {
        proof {
            assert(s@.skip(from as int).drop_first() =~= s@.skip(from + 1));
        }
        from += 1;
    }
    let ghost t = s@.skip(from as int);
    assert(t == trim_start(s@));
    let mut to: usize = v.len();
    proof {
        assert(t.take(to - from) =~= t);
    }
    while from < to && char_is_space(v[to - 1])
        invariant
            v@ == s@,
            from <= to <= v.len(),
            t == s@.skip(from as int),
            trim_end(t.take(to - from)) == trim_end(t),
        decreases to,
    {
        proof {
            assert(t.take(to - from).drop_last() =~= t.take(to - 1 - from));
        }
        to -= 1;
    }
    proof {
        assert(t.take(to - from) =~= s@.subrange(from as int, to as int));
    }
    s.substring_char(from, to).to_owned()
}

/// Whether `needle` stands in `hay`, starting at `at`.
pub open spec fn occurs_at(hay: Seq<char>, needle: Seq<char>, at: int) -> bool {
    0 <= at && at + needle.len() <= hay.len() && hay.subrange(at, at + needle.len()) == needle
}

/// Whether `needle` stands somewhere in `hay`.
pub open spec fn contains(hay: Seq<char>, needle: Seq<char>) -> bool {
    exists|at: int| occurs_at(hay, needle, at)
}

/// Whether `needle` stands somewhere in `hay`.
pub fn contains_text(hay: &str, needle: &str) -> (r: bool)
    ensures
        r == contains(hay@, needle@),
{
    let n: usize = hay.unicode_len();
    let m: usize = needle.unicode_len();
    let mut at: usize = 0;
    while at <= n && m <= n - at
        invariant
            n == hay@.len(),
            m == needle@.len(),
            at <= n + 1,
            forall|j: int| 0 <= j < at ==> !occurs_at(hay@, needle@, j),
        decreases n + 1 - at,
    {
        if same_text(hay.substring_char(at, at + m), needle) {
            assert(occurs_at(hay@, needle@, at as int));
            return true;
        }
        if at == n {
            return false;
        }
        at += 1;
    }
    false
}

/// Whether `s` begins with `prefix`.
pub open spec fn begins_with(s: Seq<char>, prefix: Seq<char>) -> bool {
    occurs_at(s, prefix, 0)
}

/// Whether `s` begins with `prefix`.
pub fn begins_with_text(s: &str, prefix: &str) -> (r: bool)
    ensures
        r == begins_with(s@, prefix@),
{
    let m: usize = prefix.unicode_len();
    m <= s.unicode_len() && same_text(s.substring_char(0, m), prefix)
}

/// The place of the first `c` in `s`, or the length of `s` without one.
pub open spec fn first_of(s: Seq<char>, c: char) -> int
    decreases s.len(),
{
    if s.len() == 0 || s[0] == c {
        0
    } else {
        1 + first_of(s.drop_first(), c)
    }
}

/// Where the first `c` stands: inside the text, with no `c` before it.
pub proof fn lemma_first_of(s: Seq<char>, c: char)
    ensures
        0 <= first_of(s, c) <= s.len(),
        first_of(s, c) < s.len() ==> s[first_of(s, c)] == c,
        forall|i: int| 0 <= i < first_of(s, c) ==> s[i] != c,
    decreases s.len(),
{
    if s.len() > 0 && s[0] != c {
        let rest = s.drop_first();
        lemma_first_of(rest, c);
        assert forall|i: int| 0 <= i < first_of(s, c) implies s[i] != c by {
            if i > 0 {
                assert(rest[i - 1] == s[i]);
            }
        }
    }
}

/// A place with a `c` and none before it is the first.
pub proof fn lemma_first_of_is(s: Seq<char>, c: char, at: int)
    requires
        0 <= at <= s.len(),
        forall|i: int| 0 <= i < at ==> s[i] != c,
        at < s.len() ==> s[at] == c,
    ensures
        first_of(s, c) == at,
{
    lemma_first_of(s, c);
}

/// The text before the first `c`, and what follows that `c`, if there is one.
pub open spec fn split_first(s: Seq<char>, c: char) -> (Seq<char>, Option<Seq<char>>) {
    let at = first_of(s, c);
    if at < s.len() {
        (s.take(at), Some(s.skip(at + 1)))
    } else {
        (s, None)
    }
}

/// The text before the first `c`, and what follows that `c`, if there is one.
pub fn split_first_text(s: &str, c: char) -> (r: (String, Option<String>))
    ensures
        r.0@ == split_first(s@, c).0,
        r.1 is Some == split_first(s@, c).1 is Some,
        r.1 is Some ==> r.1->0@ == split_first(s@, c).1->0,
{
    let v = chars_of(s);
    let mut at: usize = 0;
    while at < v.len() && v[at] != c
        invariant
            v@ == s@,
            at <= v.len(),
            forall|i: int| 0 <= i < at ==> s@[i] != c,
        decreases v.len() - at,
    {
        at += 1;
    }
    proof {
        lemma_first_of_is(s@, c, at as int);
        assert(s@.take(at as int) =~= s@.subrange(0, at as int));
        if at < s@.len() {
            assert(s@.skip(at + 1) =~= s@.subrange(at + 1, s@.len() as int));
        }
    }
    if at < v.len() {
        (s.substring_char(0, at).to_owned(), Some(s.substring_char(at + 1, v.len()).to_owned()))
    } else {
        (s.to_owned(), None)
    }
}

/// The texts of `parts`, with `sep` between each two.
pub open spec fn joined(parts: Seq<Seq<char>>, sep: Seq<char>) -> Seq<char>
    decreases parts.len(),
{
    if parts.len() == 0 {
        seq![]
    } else if parts.len() == 1 {
        parts[0]
    } else {
        joined(parts.drop_last(), sep) + sep + parts.last()
    }
}

/// The texts of `parts`, with `sep` between each two.
pub fn join_texts(parts: &Vec<String>, sep: &str) -> (r: String)
    ensures
        r@ == joined(texts(parts@), sep@),
{
    let mut r = String::new();
    let ghost all = texts(parts@);
    for i in 0..parts.len()
        invariant
            all == texts(parts@),
            r@ == joined(all.take(i as int), sep@),
    {
        proof {
            assert(all.take(i + 1).drop_last() =~= all.take(i as int));
            assert(all.take(i + 1).last() == parts@[i as int]@);
            if i == 0 {
                assert(seq![] + parts@[0]@ =~= parts@[0]@);
            }
        }
        if i > 0 {
            r.append(sep);
        }
        r.append(parts[i].as_str());
    }
    proof {
        assert(all.take(parts@.len() as int) =~= all);
    }
    r
}

/// A copy of an optional string.
pub fn copy_opt(o: &Option<String>) -> (r: Option<String>)
    ensures
        r == *o,
{
    match o {
        Some(s) => Some(s.clone()),
        None => None,
    }
}

/// The texts of a row of environment variables.
pub open spec fn pairs(v: Seq<(String, String)>) -> Seq<(Seq<char>, Seq<char>)> {
    Seq::new(v.len(), |i: int| (v[i].0@, v[i].1@))
}

/// A copy of a row of environment variables.
pub fn copy_pairs(v: &Vec<(String, String)>) -> (r: Vec<(String, String)>)
    ensures
        pairs(r@) == pairs(v@),
{
    let mut r: Vec<(String, String)> = Vec::new();
    for i in 0..v.len()
        invariant
            r@.len() == i,
            forall|j: int| 0 <= j < i ==> #[trigger] pairs(r@)[j] == pairs(v@)[j],
    {
        let ghost before = pairs(r@);
        r.push((v[i].0.clone(), v[i].1.clone()));
        proof {
            assert(pairs(r@) =~= before.push(pairs(v@)[i as int]));
        }
    }
    proof {
        assert(pairs(r@) =~= pairs(v@));
    }
    r
}

/// The ten decimal digits are those that are written so, and no other character
/// is one.
pub proof fn law_digits(c: char, i: int)
    requires
        0 <= i < 10,
    ensures
        is_digit("0123456789"@[i]),
        is_digit(c) <==> "0123456789"@.contains(c),
{
    reveal_strlit("0123456789");
    let all = "0123456789"@;
    if is_digit(c) {
        assert(all[c as int - 48] == c);
    }
    if all.contains(c) {
        let k = choose|k: int| 0 <= k < all.len() && all[k] == c;
        assert(is_digit(all[k]));
    }
}

/// The ASCII capitals have the lower-case letters in the same order as their
/// lower case; any other character is its own.
pub proof fn law_lower_case(c: char, i: int)
    requires
        0 <= i < 26,
    ensures
        lower("ABCDEFGHIJKLMNOPQRSTUVWXYZ"@[i]) == "abcdefghijklmnopqrstuvwxyz"@[i],
        !"ABCDEFGHIJKLMNOPQRSTUVWXYZ"@.contains(c) ==> lower(c) == c,
        is_alphanumeric(c) <==> "0123456789"@.contains(c)
            || "ABCDEFGHIJKLMNOPQRSTUVWXYZ"@.contains(c) || "abcdefghijklmnopqrstuvwxyz"@.contains(c),
{
    reveal_strlit("ABCDEFGHIJKLMNOPQRSTUVWXYZ");
    reveal_strlit("abcdefghijklmnopqrstuvwxyz");
    let capitals = "ABCDEFGHIJKLMNOPQRSTUVWXYZ"@;
    let small = "abcdefghijklmnopqrstuvwxyz"@;
    law_digits(c, 0);
    if 'A' <= c <= 'Z' {
        assert(capitals[c as int - 65] == c);
    }
    if 'a' <= c <= 'z' {
        assert(small[c as int - 97] == c);
    }
    if capitals.contains(c) {
        let k = choose|k: int| 0 <= k < capitals.len() && capitals[k] == c;
        assert('A' <= capitals[k] <= 'Z');
    }
    if small.contains(c) {
        let k = choose|k: int| 0 <= k < small.len() && small[k] == c;
        assert('a' <= small[k] <= 'z');
    }
}

/// The case of a text is lowered character by character, and lowering it again
/// changes nothing.
pub proof fn law_lower_text(a: Seq<char>, b: Seq<char>)
    ensures
        lower_text(a + b) == lower_text(a) + lower_text(b),
        lower_text(lower_text(a)) == lower_text(a),
        lower_text(a).len() == a.len(),
        forall|i: int| 0 <= i < a.len() ==> lower_text(a)[i] == lower(#[trigger] a[i]),
{
    assert(lower_text(a + b) =~= lower_text(a) + lower_text(b));
    assert forall|i: int| 0 <= i < a.len() implies lower(lower(#[trigger] a[i])) == lower(a[i]) by {}
    assert(lower_text(lower_text(a)) =~= lower_text(a));
}

/// A trimmed text is what is left of the text once the white space before and
/// behind it is gone, and has no white space at its ends.
pub proof fn law_trimmed(before: Seq<char>, s: Seq<char>, behind: Seq<char>)
    requires
        forall|i: int| 0 <= i < before.len() ==> is_space(#[trigger] before[i]),
        forall|i: int| 0 <= i < behind.len() ==> is_space(#[trigger] behind[i]),
        s.len() > 0 ==> !is_space(s[0]) && !is_space(s.last()),
    ensures
        trimmed(before + s + behind) == s,
    decreases before.len() + behind.len(),
{
    let t = before + s + behind;
    if before.len() > 0 {
        assert(t[0] == before[0]);
        assert(t.drop_first() =~= before.drop_first() + s + behind);
        law_trimmed(before.drop_first(), s, behind);
    } else if s.len() == 0 {
        assert(t =~= behind);
        if behind.len() > 0 {
            assert(t[0] == behind[0]);
            assert(t.drop_first() =~= behind.drop_first());
            assert(before + s + behind.drop_first() =~= behind.drop_first());
            law_trimmed(before, s, behind.drop_first());
        } else {
            assert(t =~= s);
        }
    } else {
        assert(t[0] == s[0]);
        assert(trim_start(t) == t);
        lemma_trim_end(s, behind);
        assert(t =~= s + behind);
    }
}

proof fn lemma_trim_end(s: Seq<char>, behind: Seq<char>)
    requires
        forall|i: int| 0 <= i < behind.len() ==> is_space(#[trigger] behind[i]),
        s.len() > 0 && !is_space(s.last()),
    ensures
        trim_end(s + behind) == s,
    decreases behind.len(),
{
    let t = s + behind;
    if behind.len() > 0 {
        assert(t.last() == behind.last());
        assert(t.drop_last() =~= s + behind.drop_last());
        lemma_trim_end(s, behind.drop_last());
    } else {
        assert(t =~= s);
    }
}

/// Spaces, tabs and line ends are white space; letters, digits and signs of
/// ASCII are not. Beyond ASCII the next line, the spaces that do not break and
/// those of given widths, and the separators of lines and paragraphs are.
pub proof fn law_white_space(c: char)
    ensures
        c == ' ' || c == '\t' || c == '\n' || c == '\r' ==> is_space(c),
        '!' <= c <= '~' ==> !is_space(c),
        is_space(c) <==> '\u{9}' <= c <= '\u{d}' || c == ' ' || c == '\u{85}' || c == '\u{a0}' || c
            == '\u{1680}' || '\u{2000}' <= c <= '\u{200a}' || c == '\u{2028}' || c == '\u{2029}' || c
            == '\u{202f}' || c == '\u{205f}' || c == '\u{3000}',
{
}

/// A text contains just those that something can be put before and behind to
/// make it.
pub proof fn law_contains(before: Seq<char>, needle: Seq<char>, behind: Seq<char>, hay: Seq<char>)
    ensures
        contains(before + needle + behind, needle),
        contains(hay, needle) ==> exists|a: Seq<char>, b: Seq<char>|
            hay == #[trigger] ((a + needle) + b),
{
    let t = before + needle + behind;
    let at = before.len() as int;
    assert(t.subrange(at, at + needle.len()) =~= needle);
    assert(occurs_at(t, needle, at));
    if contains(hay, needle) {
        let k = choose|k: int| occurs_at(hay, needle, k);
        let a = hay.take(k);
        let b = hay.skip(k + needle.len());
        assert(hay =~= (a + needle) + b);
    }
}

/// A text begins with just those that something can be put behind to make it.
pub proof fn law_begins_with(prefix: Seq<char>, behind: Seq<char>, s: Seq<char>)
    ensures
        begins_with(prefix + behind, prefix),
        begins_with(s, prefix) ==> s == prefix + s.skip(prefix.len() as int),
{
    let t = prefix + behind;
    assert(t.subrange(0, prefix.len() as int) =~= prefix);
    if begins_with(s, prefix) {
        assert(s.subrange(0, prefix.len() as int) == prefix);
        assert(s =~= s.subrange(0, prefix.len() as int) + s.skip(prefix.len() as int));
    }
}

/// A text is split at the first of a character: what stands before it has none,
/// and what stands behind it is kept whole.
pub proof fn law_split_first(before: Seq<char>, c: char, behind: Seq<char>)
    requires
        !before.contains(c),
    ensures
        split_first(before + seq![c] + behind, c) == (before, Some(behind)),
        split_first(before, c) == (before, None::<Seq<char>>),
{
    let t = before + seq![c] + behind;
    let at = before.len() as int;
    assert forall|i: int| 0 <= i < at implies t[i] != c by {
        assert(t[i] == before[i]);
        assert(before.contains(before[i]));
    }
    assert(t[at] == c);
    lemma_first_of_is(t, c, at);
    assert(t.take(at) =~= before);
    assert(t.skip(at + 1) =~= behind);
    assert forall|i: int| 0 <= i < at implies before[i] != c by {
        assert(before.contains(before[i]));
    }
    lemma_first_of_is(before, c, at);
}

/// Joined texts have the separator between each two and nowhere else.
pub proof fn law_joined(a: Seq<Seq<char>>, b: Seq<Seq<char>>, part: Seq<char>, sep: Seq<char>)
    ensures
        joined(Seq::empty(), sep) == Seq::<char>::empty(),
        joined(seq![part], sep) == part,
        a.len() > 0 && b.len() > 0 ==> joined(a + b, sep) == joined(a, sep) + sep + joined(b, sep),
    decreases b.len(),
{
    if a.len() > 0 && b.len() > 0 {
        let all = a + b;
        assert(all.drop_last() =~= a + b.drop_last());
        assert(all.last() == b.last());
        if b.len() == 1 {
            assert(a + b.drop_last() =~= a);
            assert(joined(b, sep) == b.last());
        } else {
            law_joined(a, b.drop_last(), part, sep);
            assert(joined(all, sep) =~= joined(a, sep) + sep + joined(b, sep));
        }
    }
}

/// A row of strings is seen text by text, an optional one where there is one,
/// and a row of variables name by name and value by value.
pub proof fn law_texts_of_rows(
    v: Seq<String>,
    o: Option<String>,
    w: Seq<(String, String)>,
    i: int,
)
    ensures
        texts(v).len() == v.len(),
        0 <= i < v.len() ==> texts(v)[i] == v[i]@,
        o is Some == opt_text(o) is Some,
        o is Some ==> opt_text(o)->0 == o->0@,
        pairs(w).len() == w.len(),
        0 <= i < w.len() ==> pairs(w)[i] == (w[i].0@, w[i].1@),
{
}

} // verus!
