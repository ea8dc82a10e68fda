//! Numerals, names and lists of names.

use vstd::prelude::*;
use vstd::string::*;

use crate::text::{self, chars_of, same};

verus! {

// ─── Numerals ───

/// The character of a digit.
pub open spec fn digit(d: nat) -> char {
    (('0' as int) + d) as char
}

/// The decimal numeral of `n`, without leading zeros.
pub open spec fn decimal(n: nat) -> Seq<char>
    decreases n,
{
    if n < 10 {
        seq![digit(n)]
    } else {
        decimal(n / 10).push(digit(n % 10))
    }
}

fn push_decimal(out: &mut String, n: u64)
    ensures
        final(out)@ == old(out)@ + decimal(n as nat),
    decreases n,
{
    if n >= 10 {
        push_decimal(out, n / 10);
    }
    let d = (48u8 + (n % 10) as u8) as char;
    let ghost before = out@;
    out.push(d);
    proof {
        assert(d == digit((n % 10) as nat));
        if n < 10 {
            assert(before.push(d) =~= old(out)@ + seq![d]);
        } else {
            assert(before.push(d) =~= old(out)@ + decimal(n as nat / 10).push(d));
        }
    }
}

/// Writes `n` in decimal.
pub fn decimal_u64(n: u64) -> (r: String)
    ensures
        r@ == decimal(n as nat),
{
    let mut r = String::new();
    push_decimal(&mut r, n);
    assert(Seq::<char>::empty() + decimal(n as nat) =~= decimal(n as nat));
    r
}

/// Writes `n` in decimal.
pub fn decimal_usize(n: usize) -> (r: String)
    ensures
        r@ == decimal(n as nat),
{
    decimal_u64(n as u64)
}

proof fn lemma_decimal_len(n: nat)
    ensures
        decimal(n).len() >= 1,
        n >= 10 ==> decimal(n).len() >= 2,
    decreases n,
{
    if n >= 10 {
        lemma_decimal_len(n / 10);
    }
}

/// Two numbers with the same numeral are the same number.
pub proof fn law_decimal_injective(a: nat, b: nat)
    requires
        decimal(a) == decimal(b),
    ensures
        a == b,
    decreases a,
{
    lemma_decimal_len(a);
    lemma_decimal_len(b);
    if a < 10 || b < 10 {
        if a < 10 {
            assert(decimal(a).len() == 1);
        } else {
            assert(decimal(b).len() == 1);
        }
        assert(a < 10 && b < 10);
        assert(digit(a) as int == 48 + a && digit(b) as int == 48 + b);
        assert(decimal(a)[0] == digit(a) && decimal(b)[0] == digit(b));
    } else {
        let x = decimal(a / 10).push(digit(a % 10));
        let y = decimal(b / 10).push(digit(b % 10));
        assert(x.last() == y.last());
        assert(digit(a % 10) as int == 48 + a % 10 && digit(b % 10) as int == 48 + b % 10);
        assert(x.drop_last() =~= decimal(a / 10));
        assert(y.drop_last() =~= decimal(b / 10));
        law_decimal_injective(a / 10, b / 10);
        assert(x.last() == digit(a % 10) && y.last() == digit(b % 10));
        assert(a == (a / 10) * 10 + a % 10);
        assert(b == (b / 10) * 10 + b % 10);
    }
}

/// The number that a text of digits stands for.
pub open spec fn number_of(s: Seq<char>) -> int
    decreases s.len(),
{
    if s.len() == 0 {
        0
    } else {
        10 * number_of(s.drop_last()) + (s.last() as int - '0' as int)
    }
}

/// The numeral of a number stands for that number, holds digits only, and begins with a zero
/// only where it is zero.
pub proof fn law_decimal_reads_back(n: nat)
    ensures
        number_of(decimal(n)) == n,
        decimal(n).len() > 0,
        forall|k: int| 0 <= k < decimal(n).len() ==> '0' <= #[trigger] decimal(n)[k] <= '9',
        decimal(n)[0] == '0' <==> n == 0,
    decreases n,
{
    if n < 10 {
        assert(decimal(n).drop_last() =~= Seq::<char>::empty());
        assert(number_of(Seq::empty()) == 0);
        assert(decimal(n).last() == digit(n));
    } else {
        law_decimal_reads_back(n / 10);
        let head = decimal(n / 10);
        assert(decimal(n).drop_last() =~= head);
        assert(decimal(n).last() == digit(n % 10));
        assert(n == 10 * (n / 10) + n % 10);
        assert forall|k: int| 0 <= k < decimal(n).len() implies '0' <= #[trigger] decimal(n)[k]
            <= '9' by {
            if k < head.len() {
                assert(decimal(n)[k] == head[k]);
            }
        }
        assert(decimal(n)[0] == head[0]);
    }
}

// ─── Replacing, joining ───

/// The first `n` characters of `s` with each `c` replaced by `with`.
pub open spec fn replaced_prefix(s: Seq<char>, c: char, with: Seq<char>, n: nat) -> Seq<char>
    decreases n,
{
    if n == 0 {
        Seq::empty()
    } else if s[n - 1] == c {
        replaced_prefix(s, c, with, (n - 1) as nat) + with
    } else {
        replaced_prefix(s, c, with, (n - 1) as nat).push(s[n - 1])
    }
}

/// `s` with each `c` replaced by `with`.
pub open spec fn replaced(s: Seq<char>, c: char, with: Seq<char>) -> Seq<char> {
    replaced_prefix(s, c, with, s.len())
}

/// Replaces each `c` of `s` by `with`.
pub fn replace_char(s: &str, c: char, with: &str) -> (r: String)
    ensures
        r@ == replaced(s@, c, with@),
{
    let cs = chars_of(s);
    let mut r = String::new();
    let mut k: usize = 0;
    while k < cs.len()
        invariant
            k <= cs@.len(),
            cs@ == s@,
            r@ == replaced_prefix(s@, c, with@, k as nat),
        decreases cs.len() - k,
    {
        if cs[k] == c {
            r.append(with);
        } else {
            r.push(cs[k]);
        }
        k = k + 1;
    }
    r
}

/// `s` with each `"` escaped by a backslash.
pub open spec fn escaped(s: Seq<char>) -> Seq<char> {
    replaced(s, '"', "\\\""@)
}

/// Escapes each `"` of `s`.
pub fn escape_quotes(s: &str) -> (r: String)
    ensures
        r@ == escaped(s@),
{
    replace_char(s, '"', "\\\"")
}

/// A kebab-case name in snake case.
pub open spec fn snake(s: Seq<char>) -> Seq<char> {
    replaced(s, '-', "_"@)
}

/// Writes a kebab-case name in snake case.
pub fn to_snake(s: &str) -> (r: String)
    ensures
        r@ == snake(s@),
{
    replace_char(s, '-', "_")
}

proof fn lemma_replaced_without(s: Seq<char>, c: char, with: Seq<char>, n: nat)
    requires
        n <= s.len(),
        forall|i: int| 0 <= i < with.len() ==> with[i] != c,
    ensures
        forall|i: int|
            0 <= i < replaced_prefix(s, c, with, n).len() ==> replaced_prefix(s, c, with, n)[i]
                != c,
    decreases n,
{
    if n > 0 {
        lemma_replaced_without(s, c, with, (n - 1) as nat);
        let head = replaced_prefix(s, c, with, (n - 1) as nat);
        let all = replaced_prefix(s, c, with, n);
        assert forall|i: int| 0 <= i < all.len() implies all[i] != c by {
            if i < head.len() {
                assert(all[i] == head[i]);
            } else if s[n - 1] == c {
                assert(all[i] == with[i - head.len()]);
            }
        }
    }
}

/// A name in snake case holds no hyphen.
pub proof fn law_snake_has_no_hyphen(s: Seq<char>)
    ensures
        !snake(s).contains('-'),
{
    reveal_strlit("_");
    lemma_replaced_without(s, '-', "_"@, s.len());
}

/// Where nothing is to be replaced, the text stays as it is.
pub proof fn law_replaced_absent(s: Seq<char>, c: char, with: Seq<char>)
    requires
        !s.contains(c),
    ensures
        replaced(s, c, with) == s,
{
    lemma_replaced_absent_prefix(s, c, with, s.len());
    assert(s.take(s.len() as int) =~= s);
}

proof fn lemma_replaced_absent_prefix(s: Seq<char>, c: char, with: Seq<char>, n: nat)
    requires
        n <= s.len(),
        !s.contains(c),
    ensures
        replaced_prefix(s, c, with, n) == s.take(n as int),
    decreases n,
{
    if n > 0 {
        lemma_replaced_absent_prefix(s, c, with, (n - 1) as nat);
        assert(s[n - 1] != c);
        assert(s.take(n as int) =~= s.take(n - 1).push(s[n - 1]));
    } else {
        assert(s.take(0) =~= Seq::<char>::empty());
    }
}

/// Replacing in two texts behind each other is replacing in each.
pub proof fn law_replaced_parts(a: Seq<char>, b: Seq<char>, c: char, with: Seq<char>)
    ensures
        replaced(a + b, c, with) == replaced(a, c, with) + replaced(b, c, with),
        forall|d: char| #[trigger]
            replaced(seq![d], c, with) == if d == c {
                with
            } else {
                seq![d]
            },
{
    lemma_replaced_parts(a, b, c, with, b.len());
    assert forall|d: char| #[trigger] replaced(seq![d], c, with) == if d == c {
        with
    } else {
        seq![d]
    } by {
        reveal_with_fuel(replaced_prefix, 2);
        assert(Seq::<char>::empty() + with =~= with);
        assert(Seq::<char>::empty().push(d) =~= seq![d]);
    }
}

proof fn lemma_replaced_parts(a: Seq<char>, b: Seq<char>, c: char, with: Seq<char>, n: nat)
    requires
        n <= b.len(),
    ensures
        replaced_prefix(a + b, c, with, a.len() + n) == replaced(a, c, with) + replaced_prefix(
            b,
            c,
            with,
            n,
        ),
    decreases n,
{
    if n == 0 {
        lemma_replaced_front(a, b, c, with, a.len());
        assert(replaced(a, c, with) + Seq::<char>::empty() =~= replaced(a, c, with));
    } else {
        lemma_replaced_parts(a, b, c, with, (n - 1) as nat);
        assert((a + b)[a.len() + n - 1] == b[n - 1]);
        let head = replaced(a, c, with);
        let mid = replaced_prefix(b, c, with, (n - 1) as nat);
        assert((head + mid) + with =~= head + (mid + with));
        assert((head + mid).push(b[n - 1]) =~= head + mid.push(b[n - 1]));
    }
}

proof fn lemma_replaced_front(a: Seq<char>, b: Seq<char>, c: char, with: Seq<char>, n: nat)
    requires
        n <= a.len(),
    ensures
        replaced_prefix(a + b, c, with, n) == replaced_prefix(a, c, with, n),
    decreases n,
{
    if n > 0 {
        lemma_replaced_front(a, b, c, with, (n - 1) as nat);
        assert((a + b)[n - 1] == a[n - 1]);
    }
}

/// A quote is escaped by one backslash, and any other character is left as it is.
pub proof fn law_escaped_characters(c: char)
    ensures
        escaped(seq![c]) == if c == '"' {
            seq!['\\', '"']
        } else {
            seq![c]
        },
{
    law_replaced_parts(Seq::empty(), Seq::empty(), '"', "\\\""@);
    reveal_strlit("\\\"");
    assert("\\\""@ =~= seq!['\\', '"']);
}

/// In snake case each hyphen is an underscore, and any other character stands where it stood.
pub proof fn law_snake_characters(s: Seq<char>)
    ensures
        snake(s).len() == s.len(),
        forall|k: int|
            0 <= k < s.len() ==> #[trigger] snake(s)[k] == if s[k] == '-' {
                '_'
            } else {
                s[k]
            },
{
    lemma_snake_prefix(s, s.len());
}

proof fn lemma_snake_prefix(s: Seq<char>, n: nat)
    requires
        n <= s.len(),
    ensures
        replaced_prefix(s, '-', "_"@, n).len() == n,
        forall|k: int|
            0 <= k < n ==> #[trigger] replaced_prefix(s, '-', "_"@, n)[k] == if s[k] == '-' {
                '_'
            } else {
                s[k]
            },
    decreases n,
{
    reveal_strlit("_");
    if n > 0 {
        lemma_snake_prefix(s, (n - 1) as nat);
        let head = replaced_prefix(s, '-', "_"@, (n - 1) as nat);
        assert forall|k: int| 0 <= k < n implies #[trigger] replaced_prefix(s, '-', "_"@, n)[k]
            == if s[k] == '-' {
            '_'
        } else {
            s[k]
        } by {
            if k < n - 1 {
                assert(replaced_prefix(s, '-', "_"@, n)[k] == head[k]);
            }
        }
    }
}

/// The first `n` of `parts`, with `sep` between neighbours.
pub open spec fn joined_prefix(parts: Seq<Seq<char>>, sep: Seq<char>, n: nat) -> Seq<char>
    decreases n,
{
    if n == 0 {
        Seq::empty()
    } else if n == 1 {
        parts[0]
    } else {
        joined_prefix(parts, sep, (n - 1) as nat) + sep + parts[n - 1]
    }
}

/// `parts` with `sep` between neighbours.
pub open spec fn joined(parts: Seq<Seq<char>>, sep: Seq<char>) -> Seq<char> {
    joined_prefix(parts, sep, parts.len())
}

/// Joins `parts` with `sep` between neighbours.
pub fn join(parts: &Vec<String>, sep: &str) -> (r: String)
    ensures
        r@ == joined(text::strs(parts@), sep@),
{
    let mut r = String::new();
    let mut k: usize = 0;
    while k < parts.len()
        invariant
            k <= parts@.len(),
            r@ == joined_prefix(text::strs(parts@), sep@, k as nat),
        decreases parts.len() - k,
    {
        if k > 0 {
            r.append(sep);
        }
        let ghost before = r@;
        r.append(parts[k].as_str());
        proof {
            if k == 0 {
                assert(before + parts@[0]@ =~= parts@[0]@);
            }
        }
        k = k + 1;
    }
    r
}

// ─── Lists of names ───

/// Whether the name at `k` does not occur before `k`.
pub open spec fn fresh(names: Seq<Seq<char>>, k: int) -> bool {
    forall|j: int| 0 <= j < k ==> names[j] != names[k]
}

/// How many of the first `n` names are fresh: the number that the next fresh name gets.
pub open spec fn count_fresh(names: Seq<Seq<char>>, n: nat) -> nat
    decreases n,
{
    if n == 0 {
        0
    } else if fresh(names, n - 1) {
        count_fresh(names, (n - 1) as nat) + 1
    } else {
        count_fresh(names, (n - 1) as nat)
    }
}

/// Whether `x` is among `v`.
pub fn has(v: &Vec<String>, x: &str) -> (r: bool)
    ensures
        r == text::strs(v@).contains(x@),
{
    let mut k: usize = 0;
    while k < v.len()
        invariant
            k <= v@.len(),
            forall|j: int| 0 <= j < k ==> text::strs(v@)[j] != x@,
        decreases v.len() - k,
    {
        if same(v[k].as_str(), x) {
            assert(text::strs(v@)[k as int] == x@);
            return true;
        }
        k = k + 1;
    }
    false
}

/// Whether the name at `k` does not occur before `k`.
pub fn is_fresh(names: &Vec<String>, k: usize) -> (r: bool)
    requires
        k < names@.len(),
    ensures
        r == fresh(text::strs(names@), k as int),
{
    let mut j: usize = 0;
    while j < k
        invariant
            j <= k < names@.len(),
            forall|i: int| 0 <= i < j ==> text::strs(names@)[i] != text::strs(names@)[k as int],
        decreases k - j,
    {
        if same(names[j].as_str(), names[k].as_str()) {
            assert(text::strs(names@)[j as int] == text::strs(names@)[k as int]);
            return false;
        }
        j = j + 1;
    }
    true
}

/// Fresh names get different numbers: the count grows at each of them.
pub proof fn law_fresh_numbers_distinct(names: Seq<Seq<char>>, j: nat, k: nat)
    requires
        j < k < names.len(),
        fresh(names, j as int),
    ensures
        count_fresh(names, j) < count_fresh(names, k),
    decreases k,
{
    if k > j + 1 {
        law_fresh_numbers_distinct(names, j, (k - 1) as nat);
    }
}

// ─── Letters ───

/// Whether `c` is one of `A` to `Z`, `a` to `z` and `0` to `9`.
pub open spec fn alphanumeric(c: char) -> bool {
    'a' <= c <= 'z' || 'A' <= c <= 'Z' || '0' <= c <= '9'
}

/// Whether `c` is one of `A` to `Z`, `a` to `z` and `0` to `9`.
pub fn is_alphanumeric(c: char) -> (r: bool)
    ensures
        r == alphanumeric(c),
{
    ('a' <= c && c <= 'z') || ('A' <= c && c <= 'Z') || ('0' <= c && c <= '9')
}

/// `s` with `-` in place of each character that is no ASCII letter or digit.
pub open spec fn dashed(s: Seq<char>) -> Seq<char> {
    s.map_values(|c: char| if alphanumeric(c) { c } else { '-' })
}

/// Puts `-` in place of each character of `s` that is no ASCII letter or digit.
pub fn to_dashed(s: &str) -> (r: String)
    ensures
        r@ == dashed(s@),
{
    let cs = chars_of(s);
    let mut r = String::new();
    let mut k: usize = 0;
    while k < cs.len()
        invariant
            k <= cs@.len(),
            cs@ == s@,
            r@ == dashed(s@).take(k as int),
        decreases cs.len() - k,
    {
        let c = if is_alphanumeric(cs[k]) { cs[k] } else { '-' };
        r.push(c);
        proof {
            assert(dashed(s@).take(k + 1) =~= dashed(s@).take(k as int).push(c));
        }
        k = k + 1;
    }
    assert(dashed(s@).take(k as int) =~= dashed(s@));
    r
}

/// A second pass of dashing changes nothing.
pub proof fn law_dashed_idempotent(s: Seq<char>)
    ensures
        dashed(dashed(s)) == dashed(s),
{
    assert(dashed(dashed(s)) =~= dashed(s));
}

/// The uppercase form, as `char::to_uppercase` of std gives it, of a character beyond ASCII.
pub uninterp spec fn upper_beyond_ascii(c: char) -> Seq<char>;

/// The uppercase form of `c`: an ASCII letter's is the capital letter, any other ASCII
/// character's is itself.
pub open spec fn upper(c: char) -> Seq<char> {
    if 'a' <= c <= 'z' {
        seq![(c as int - 32) as char]
    } else if c as int <= 127 {
        seq![c]
    } else {
        upper_beyond_ascii(c)
    }
}

/// Calls `char::to_uppercase` of std and gathers the characters that it yields. Nothing is
/// claimed but that they depend on the character alone.
#[verifier::external_body]
fn char_to_uppercase(c: char) -> (r: String)
    requires
        c as int > 127,
    ensures
        r@ == upper_beyond_ascii(c),
{
    c.to_uppercase().to_string()
}

fn push_upper(out: &mut String, c: char)
    ensures
        final(out)@ == old(out)@ + upper(c),
{
    if 'a' <= c && c <= 'z' {
        let u = ((c as u8) - 32) as char;
        out.push(u);
        assert(old(out)@.push(u) =~= old(out)@ + seq![u]);
    } else if c <= '\u{7f}' {
        out.push(c);
        assert(old(out)@.push(c) =~= old(out)@ + seq![c]);
    } else {
        let u = char_to_uppercase(c);
        out.append(u.as_str());
    }
}

/// Whether all of `s` is ASCII.
pub open spec fn all_ascii(s: Seq<char>) -> bool {
    forall|k: int| 0 <= k < s.len() ==> #[trigger] s[k] as int <= 127
}

/// The uppercase form, as `str::to_uppercase` of std gives it, of a text that is not all ASCII.
pub uninterp spec fn upper_text_beyond_ascii(s: Seq<char>) -> Seq<char>;

/// The uppercase form of the first `n` characters of a text that is all ASCII.
pub open spec fn upper_prefix(s: Seq<char>, n: nat) -> Seq<char>
    decreases n,
{
    if n == 0 {
        Seq::empty()
    } else {
        upper_prefix(s, (n - 1) as nat) + upper(s[n - 1])
    }
}

/// The uppercase form of a text: of one that is all ASCII, letter by letter.
pub open spec fn upper_text(s: Seq<char>) -> Seq<char> {
    if all_ascii(s) {
        upper_prefix(s, s.len())
    } else {
        upper_text_beyond_ascii(s)
    }
}

/// Calls `str::to_uppercase` of std. Nothing is claimed but that its result depends on the
/// text alone.
#[verifier::external_body]
fn str_to_uppercase(s: &str) -> (r: String)
    requires
        !all_ascii(s@),
    ensures
        r@ == upper_text_beyond_ascii(s@),
{
    s.to_uppercase()
}

/// Writes a text in upper case.
pub fn to_upper_text(s: &str) -> (r: String)
    ensures
        r@ == upper_text(s@),
{
    let cs = chars_of(s);
    let mut r = String::new();
    let mut k: usize = 0;
    while k < cs.len()
        invariant
            k <= cs@.len(),
            cs@ == s@,
            forall|j: int| 0 <= j < k ==> #[trigger] s@[j] as int <= 127,
            r@ == upper_prefix(s@, k as nat),
        decreases cs.len() - k,
    {
        if cs[k] > '\u{7f}' {
            assert(s@[k as int] as int > 127);
            return str_to_uppercase(s);
        }
        push_upper(&mut r, cs[k]);
        k = k + 1;
    }
    r
}

/// Whether `char::is_whitespace` of std holds of a character beyond ASCII.
pub uninterp spec fn whitespace_beyond_ascii(c: char) -> bool;

/// Whether `c` is white space: of ASCII, the space and the characters from tab to
/// carriage return.
pub open spec fn whitespace(c: char) -> bool {
    if c as int <= 127 {
        c == ' ' || 9 <= c as int <= 13
    } else {
        whitespace_beyond_ascii(c)
    }
}

/// Calls `char::is_whitespace` of std. Nothing is claimed but that its answer depends on
/// the character alone.
#[verifier::external_body]
fn char_is_whitespace(c: char) -> (r: bool)
    requires
        c as int > 127,
    ensures
        r == whitespace_beyond_ascii(c),
{
    c.is_whitespace()
}

/// Whether `c` is white space.
pub fn is_whitespace(c: char) -> (r: bool)
    ensures
        r == whitespace(c),
{
    if c <= '\u{7f}' {
        c == ' ' || ('\u{9}' <= c && c <= '\u{d}')
    } else {
        char_is_whitespace(c)
    }
}

/// Whether `c` parts two words of a name; white space does so where `spaces` is set.
pub open spec fn parts_words(c: char, spaces: bool) -> bool {
    c == '-' || c == '_' || (spaces && whitespace(c))
}

/// Whether the character of `s` at `k` begins a word: it stands first, or behind a character
/// that parts words.
pub open spec fn begins_word(s: Seq<char>, k: int, spaces: bool) -> bool {
    k == 0 || parts_words(s[k - 1], spaces)
}

/// The first `n` characters of `s` in Pascal case: what parts words is left out, and the
/// first character of each word is in upper case.
pub open spec fn pascal_prefix(s: Seq<char>, spaces: bool, n: nat) -> Seq<char>
    decreases n,
{
    if n == 0 {
        Seq::empty()
    } else {
        let head = pascal_prefix(s, spaces, (n - 1) as nat);
        if parts_words(s[n - 1], spaces) {
            head
        } else if begins_word(s, n - 1, spaces) {
            head + upper(s[n - 1])
        } else {
            head.push(s[n - 1])
        }
    }
}

/// `s` in Pascal case.
pub open spec fn pascal(s: Seq<char>, spaces: bool) -> Seq<char> {
    pascal_prefix(s, spaces, s.len())
}

fn to_pascal(s: &str, spaces: bool) -> (r: String)
    ensures
        r@ == pascal(s@, spaces),
{
    let cs = chars_of(s);
    let mut out = String::new();
    let mut up = true;
    let mut k: usize = 0;
    while k < cs.len()
        invariant
            k <= cs@.len(),
            cs@ == s@,
            up == begins_word(s@, k as int, spaces),
            out@ == pascal_prefix(s@, spaces, k as nat),
        decreases cs.len() - k,
    {
        let c = cs[k];
        if c == '-' || c == '_' || (spaces && is_whitespace(c)) {
            up = true;
        } else if up {
            push_upper(&mut out, c);
            up = false;
        } else {
            out.push(c);
        }
        k = k + 1;
    }
    out
}

/// A kebab-case or snake-case name in Pascal case, as a bindings generator names an enum or
/// a resource.
pub fn kebab_to_pascal(s: &str) -> (r: String)
    ensures
        r@ == pascal(s@, false),
{
    to_pascal(s, false)
}

/// A name in Pascal case, where white space parts words too.
pub fn pascal_case(s: &str) -> (r: String)
    ensures
        r@ == pascal(s@, true),
{
    to_pascal(s, true)
}

// ─── Package names ───

/// The position of the first `c` of `s` at `k` or later, or the length of `s`.
pub open spec fn first_at(s: Seq<char>, c: char, k: int) -> int
    decreases s.len() - k,
{
    if k >= s.len() {
        s.len() as int
    } else if s[k] == c {
        k
    } else {
        first_at(s, c, k + 1)
    }
}

/// What `first_at` gives holds `c`, and nothing before it from `k` on does.
pub proof fn lemma_first_at(s: Seq<char>, c: char, k: int)
    requires
        0 <= k <= s.len(),
    ensures
        k <= first_at(s, c, k) <= s.len(),
        first_at(s, c, k) < s.len() ==> s[first_at(s, c, k)] == c,
        forall|j: int| k <= j < first_at(s, c, k) ==> s[j] != c,
    decreases s.len() - k,
{
    if k < s.len() && s[k] != c {
        lemma_first_at(s, c, k + 1);
    }
}

/// The part of a package name before its first `:`, or all of it.
pub open spec fn namespace_of(pkg: Seq<char>) -> Seq<char> {
    pkg.take(first_at(pkg, ':', 0))
}

/// The part of a package name behind its first `:`, or nothing.
pub open spec fn name_of(pkg: Seq<char>) -> Seq<char> {
    let i = first_at(pkg, ':', 0);
    if i < pkg.len() {
        pkg.skip(i + 1)
    } else {
        Seq::empty()
    }
}

fn push_range(out: &mut String, cs: &Vec<char>, from: usize, to: usize)
    requires
        from <= to <= cs@.len(),
    ensures
        final(out)@ == old(out)@ + cs@.subrange(from as int, to as int),
{
    let mut i: usize = from;
    assert(cs@.subrange(from as int, from as int) =~= Seq::<char>::empty());
    assert(out@ =~= old(out)@ + Seq::<char>::empty());
    while i < to
        invariant
            from <= i <= to <= cs@.len(),
            out@ == old(out)@ + cs@.subrange(from as int, i as int),
        decreases to - i,
    {
        let ghost before = out@;
        out.push(cs[i]);
        proof {
            assert(cs@.subrange(from as int, i + 1) =~= cs@.subrange(from as int, i as int).push(
                cs@[i as int],
            ));
            assert(before.push(cs@[i as int]) =~= old(out)@ + cs@.subrange(from as int, i + 1));
        }
        i = i + 1;
    }
}

/// The text of the characters of `cs` from `from` up to `to`.
pub fn text_of_range(cs: &Vec<char>, from: usize, to: usize) -> (r: String)
    requires
        from <= to <= cs@.len(),
    ensures
        r@ == cs@.subrange(from as int, to as int),
{
    let mut r = String::new();
    push_range(&mut r, cs, from, to);
    assert(Seq::<char>::empty() + cs@.subrange(from as int, to as int) =~= cs@.subrange(
        from as int,
        to as int,
    ));
    r
}

/// Splits a package name at its first `:`.
pub fn split_pkg(pkg: &str) -> (r: (String, String))
    ensures
        r.0@ == namespace_of(pkg@),
        r.1@ == name_of(pkg@),
{
    let cs = chars_of(pkg);
    let mut i: usize = 0;
    while i < cs.len() && cs[i] != ':'
        invariant
            i <= cs@.len(),
            cs@ == pkg@,
            first_at(pkg@, ':', 0) == first_at(pkg@, ':', i as int),
        decreases cs.len() - i,
    {
        i = i + 1;
    }
    let ns = text_of_range(&cs, 0, i);
    assert(pkg@.subrange(0, i as int) =~= pkg@.take(i as int));
    if i < cs.len() {
        let name = text_of_range(&cs, i + 1, cs.len());
        assert(pkg@.subrange(i + 1, pkg@.len() as int) =~= pkg@.skip(i + 1));
        (ns, name)
    } else {
        (ns, String::new())
    }
}

/// Whether the namespace of `package` is `primary`.
pub open spec fn belongs(package: Seq<char>, primary: Seq<char>) -> bool {
    namespace_of(package) == primary
}

/// Whether `package` is the primary shim's own: the part before its first `:` is `primary`.
pub fn package_belongs_to_primary(package: &str, primary: &str) -> (r: bool)
    ensures
        r == belongs(package@, primary@),
{
    let parts = split_pkg(package);
    same(parts.0.as_str(), primary)
}

/// A namespace and a name joined by `:` split again into the two, where the namespace holds
/// no `:`.
pub proof fn law_split_undoes_join(ns: Seq<char>, name: Seq<char>)
    requires
        !ns.contains(':'),
    ensures
        namespace_of(ns.push(':') + name) == ns,
        name_of(ns.push(':') + name) == name,
{
    let pkg = ns.push(':') + name;
    lemma_first_at(pkg, ':', 0);
    let i = first_at(pkg, ':', 0);
    assert(pkg[ns.len() as int] == ':');
    if i < ns.len() {
        assert(pkg[i] == ns[i]);
        assert(ns.contains(ns[i]));
    }
    assert(i == ns.len());
    assert(pkg.take(i) =~= ns);
    assert(pkg.skip(i + 1) =~= name);
}

// ─── Splicing ───

/// Whether `part` stands in `s` at `k`.
pub open spec fn stands_at(s: Seq<char>, part: Seq<char>, k: int) -> bool {
    0 <= k && k + part.len() <= s.len() && s.subrange(k, k + part.len()) == part
}

/// `s` from `k` on, with `with` in place of each `part`; of two that overlap the first counts.
pub open spec fn spliced_from(s: Seq<char>, part: Seq<char>, with: Seq<char>, k: int) -> Seq<char>
    decreases s.len() - k,
{
    if k >= s.len() {
        Seq::empty()
    } else if part.len() > 0 && stands_at(s, part, k) {
        with + spliced_from(s, part, with, k + part.len())
    } else {
        seq![s[k]] + spliced_from(s, part, with, k + 1)
    }
}

/// `s` with `with` in place of each `part`.
pub open spec fn spliced(s: Seq<char>, part: Seq<char>, with: Seq<char>) -> Seq<char> {
    spliced_from(s, part, with, 0)
}

fn is_at(s: &Vec<char>, part: &Vec<char>, k: usize) -> (r: bool)
    requires
        k < s@.len(),
    ensures
        r == stands_at(s@, part@, k as int),
{
    if part.len() > s.len() - k {
        return false;
    }
    let mut j: usize = 0;
    while j < part.len()
        invariant
            j <= part@.len(),
            k + part@.len() <= s.len(),
            forall|i: int| 0 <= i < j ==> s@[k + i] == part@[i],
        decreases part.len() - j,
    {
        if s[k + j] != part[j] {
            assert(s@.subrange(k as int, k + part@.len())[j as int] != part@[j as int]);
            return false;
        }
        j = j + 1;
    }
    assert(s@.subrange(k as int, k + part@.len()) =~= part@);
    true
}

/// Whether `s` starts with `part`.
pub fn starts_with(s: &str, part: &str) -> (r: bool)
    ensures
        r == stands_at(s@, part@, 0),
{
    let cs = chars_of(s);
    let ps = chars_of(part);
    if cs.len() == 0 {
        assert(s@.subrange(0, 0) =~= s@);
        assert(ps.len() == 0 ==> part@ =~= s@);
        ps.len() == 0
    } else {
        is_at(&cs, &ps, 0)
    }
}

/// Puts `with` in place of each `part` of `s`.
pub fn splice(s: &str, part: &str, with: &str) -> (r: String)
    ensures
        r@ == spliced(s@, part@, with@),
{
    let cs = chars_of(s);
    let ps = chars_of(part);
    let mut r = String::new();
    let mut k: usize = 0;
    assert(r@ + spliced_from(s@, part@, with@, 0) =~= spliced(s@, part@, with@));
    while k < cs.len()
        invariant
            k <= cs@.len(),
            cs@ == s@,
            ps@ == part@,
            r@ + spliced_from(s@, part@, with@, k as int) == spliced(s@, part@, with@),
        decreases cs.len() - k,
    {
        let ghost was = r@;
        if ps.len() > 0 && is_at(&cs, &ps, k) {
            r.append(with);
            proof {
                let rest = spliced_from(s@, part@, with@, k + part@.len());
                assert(was + (with@ + rest) =~= (was + with@) + rest);
            }
            k = k + ps.len();
        } else {
            r.push(cs[k]);
            proof {
                let rest = spliced_from(s@, part@, with@, k + 1);
                assert(was + (seq![s@[k as int]] + rest) =~= was.push(s@[k as int]) + rest);
            }
            k = k + 1;
        }
    }
    assert(r@ + Seq::<char>::empty() =~= r@);
    r
}

/// Where `part` stands once in a text, splicing puts the new text there and leaves the rest.
pub proof fn law_splice_once(a: Seq<char>, part: Seq<char>, b: Seq<char>, with: Seq<char>)
    requires
        part.len() > 0,
        forall|k: int| #[trigger] stands_at(a + part + b, part, k) ==> k == a.len(),
    ensures
        spliced(a + part + b, part, with) == a + with + b,
{
    let s = a + part + b;
    let n = s.len() as int;
    let e = (a.len() + part.len()) as int;
    lemma_spliced_plain(s, part, with, e, n);
    assert(spliced_from(s, part, with, n) =~= Seq::<char>::empty());
    assert(s.subrange(e, n) + Seq::<char>::empty() =~= b);
    assert(s.subrange(a.len() as int, e) =~= part);
    assert(stands_at(s, part, a.len() as int));
    lemma_spliced_plain(s, part, with, 0, a.len() as int);
    assert(s.subrange(0, a.len() as int) =~= a);
    assert(a + (with + b) =~= a + with + b);
}

/// Splicing takes over what stands before the next `part`.
proof fn lemma_spliced_plain(s: Seq<char>, part: Seq<char>, with: Seq<char>, k: int, e: int)
    requires
        0 <= k <= e <= s.len(),
        forall|i: int| k <= i < e ==> !#[trigger] stands_at(s, part, i),
    ensures
        spliced_from(s, part, with, k) == s.subrange(k, e) + spliced_from(s, part, with, e),
    decreases e - k,
{
    if k < e {
        lemma_spliced_plain(s, part, with, k + 1, e);
        let rest = spliced_from(s, part, with, e);
        assert(seq![s[k]] + (s.subrange(k + 1, e) + rest) =~= s.subrange(k, e) + rest);
    } else {
        assert(s.subrange(k, e) + spliced_from(s, part, with, e) =~= spliced_from(
            s,
            part,
            with,
            e,
        ));
    }
}

// ─── Pieces ───

/// Whether `part` stands somewhere in `s`.
pub open spec fn has_piece(s: Seq<char>, part: Seq<char>) -> bool {
    exists|k: int| stands_at(s, part, k)
}

/// What was put at the end stands there.
pub proof fn lemma_piece_added(s: Seq<char>, part: Seq<char>)
    ensures
        has_piece(s + part, part),
{
    let k = s.len() as int;
    assert((s + part).subrange(k, k + part.len()) =~= part);
    assert(stands_at(s + part, part, k));
}

/// What stands in a text stands in it when more is put behind it.
pub proof fn lemma_piece_kept(s: Seq<char>, more: Seq<char>, part: Seq<char>)
    requires
        has_piece(s, part),
    ensures
        has_piece(s + more, part),
{
    let k = choose|k: int| stands_at(s, part, k);
    assert((s + more).subrange(k, k + part.len()) =~= s.subrange(k, k + part.len()));
    assert(stands_at(s + more, part, k));
}

/// What stands in a text stands in it when something is put before it.
pub proof fn lemma_piece_moved(before: Seq<char>, s: Seq<char>, part: Seq<char>)
    requires
        has_piece(s, part),
    ensures
        has_piece(before + s, part),
{
    let k = choose|k: int| stands_at(s, part, k);
    let j = before.len() + k;
    assert((before + s).subrange(j, j + part.len()) =~= s.subrange(k, k + part.len()));
    assert(stands_at(before + s, part, j));
}

/// What stands between two texts is a piece of them all.
pub proof fn lemma_piece_between(before: Seq<char>, part: Seq<char>, rest: Seq<char>)
    ensures
        has_piece(before + (part + rest), part),
{
    let k = before.len() as int;
    let s = before + (part + rest);
    assert(s.subrange(k, k + part.len()) =~= part);
    assert(stands_at(s, part, k));
}

/// A piece of a piece is a piece of the whole.
pub proof fn lemma_piece_of_piece(s: Seq<char>, mid: Seq<char>, part: Seq<char>)
    requires
        has_piece(s, mid),
        has_piece(mid, part),
    ensures
        has_piece(s, part),
{
    let k = choose|k: int| stands_at(s, mid, k);
    let j = choose|j: int| stands_at(mid, part, j);
    assert(s.subrange(k + j, k + j + part.len()) =~= mid.subrange(j, j + part.len()));
    assert(stands_at(s, part, k + j));
}

/// The pieces of a text are pieces of a text that goes on behind it.
pub proof fn lemma_pieces_kept(s: Seq<char>, more: Seq<char>)
    ensures
        forall|part: Seq<char>| #[trigger] has_piece(s, part) ==> has_piece(s + more, part),
{
    assert forall|part: Seq<char>| #[trigger] has_piece(s, part) implies has_piece(s + more, part) by {
        lemma_piece_kept(s, more, part);
    }
}

/// The pieces of a text are pieces of a text that ends in it.
pub proof fn lemma_pieces_moved(before: Seq<char>, s: Seq<char>)
    ensures
        forall|part: Seq<char>| #[trigger] has_piece(s, part) ==> has_piece(before + s, part),
{
    assert forall|part: Seq<char>| #[trigger] has_piece(s, part) implies has_piece(before + s, part) by {
        lemma_piece_moved(before, s, part);
    }
}

/// The pieces of a piece are pieces of the whole.
pub proof fn lemma_pieces_of_piece(s: Seq<char>, mid: Seq<char>)
    requires
        has_piece(s, mid),
    ensures
        forall|part: Seq<char>| #[trigger] has_piece(mid, part) ==> has_piece(s, part),
{
    assert forall|part: Seq<char>| #[trigger] has_piece(mid, part) implies has_piece(s, part) by {
        lemma_piece_of_piece(s, mid, part);
    }
}

/// What stands before and behind a text, and the text itself, are pieces of the whole.
pub proof fn lemma_pieces_around(before: Seq<char>, s: Seq<char>, after: Seq<char>)
    ensures
        has_piece(before + s + after, s),
        forall|part: Seq<char>| #[trigger]
            has_piece(before, part) ==> has_piece(before + s + after, part),
        forall|part: Seq<char>| #[trigger]
            has_piece(s, part) ==> has_piece(before + s + after, part),
        forall|part: Seq<char>| #[trigger]
            has_piece(after, part) ==> has_piece(before + s + after, part),
{
    let all = before + s + after;
    lemma_piece_added(before, s);
    lemma_piece_kept(before + s, after, s);
    assert forall|part: Seq<char>| #[trigger] has_piece(before, part) implies has_piece(all, part) by {
        lemma_piece_kept(before, s, part);
        lemma_piece_kept(before + s, after, part);
    }
    assert forall|part: Seq<char>| #[trigger] has_piece(s, part) implies has_piece(all, part) by {
        lemma_piece_moved(before, s, part);
        lemma_piece_kept(before + s, after, part);
    }
    assert forall|part: Seq<char>| #[trigger] has_piece(after, part) implies has_piece(all, part) by {
        lemma_piece_moved(before + s, after, part);
    }
}

// ─── Joined texts and words ───

/// Joined texts stand in their order: each is followed by the separator and by the next one, the
/// first stands at the beginning and the last at the end.
pub proof fn law_joined_in_order(parts: Seq<Seq<char>>, sep: Seq<char>, k: int)
    requires
        0 <= k < parts.len(),
    ensures
        has_piece(joined(parts, sep), parts[k]),
        k + 1 < parts.len() ==> has_piece(joined(parts, sep), parts[k] + sep + parts[k + 1]),
        parts.len() == 1 ==> joined(parts, sep) == parts[0],
        stands_at(joined(parts, sep), parts[0], 0),
        stands_at(joined(parts, sep), parts.last(), joined(parts, sep).len() - parts.last().len()),
{
    lemma_joined_pieces(parts, sep, parts.len(), k);
    lemma_joined_ends(parts, sep, parts.len());
}

proof fn lemma_joined_pieces(parts: Seq<Seq<char>>, sep: Seq<char>, n: nat, k: int)
    requires
        0 <= k < n <= parts.len(),
    ensures
        has_piece(joined_prefix(parts, sep, n), parts[k]),
        k + 1 < n ==> has_piece(joined_prefix(parts, sep, n), parts[k] + sep + parts[k + 1]),
    decreases n,
{
    let last = parts[n - 1];
    if n == 1 {
        assert(Seq::<char>::empty() + last =~= last);
        lemma_piece_added(Seq::empty(), last);
    } else {
        let before = joined_prefix(parts, sep, (n - 1) as nat);
        if k == n - 1 {
            lemma_piece_added(before + sep, last);
        } else {
            lemma_joined_pieces(parts, sep, (n - 1) as nat, k);
            lemma_piece_kept(before, sep, parts[k]);
            lemma_piece_kept(before + sep, last, parts[k]);
            if k == n - 2 {
                let pair = parts[k] + sep + last;
                if n == 2 {
                    assert(before + sep + last =~= Seq::<char>::empty() + pair);
                    lemma_piece_added(Seq::empty(), pair);
                } else {
                    let start = joined_prefix(parts, sep, (n - 2) as nat) + sep;
                    assert(before + sep + last =~= start + pair);
                    lemma_piece_added(start, pair);
                }
            } else {
                let pair = parts[k] + sep + parts[k + 1];
                lemma_piece_kept(before, sep, pair);
                lemma_piece_kept(before + sep, last, pair);
            }
        }
    }
}

proof fn lemma_joined_ends(parts: Seq<Seq<char>>, sep: Seq<char>, n: nat)
    requires
        0 < n <= parts.len(),
    ensures
        stands_at(joined_prefix(parts, sep, n), parts[0], 0),
        stands_at(
            joined_prefix(parts, sep, n),
            parts[n - 1],
            joined_prefix(parts, sep, n).len() - parts[n - 1].len(),
        ),
    decreases n,
{
    let s = joined_prefix(parts, sep, n);
    let last = parts[n - 1];
    if n == 1 {
        assert(s.subrange(0, last.len() as int) =~= last);
    } else {
        lemma_joined_ends(parts, sep, (n - 1) as nat);
        let before = joined_prefix(parts, sep, (n - 1) as nat);
        let first = parts[0];
        assert(s.subrange(0, first.len() as int) =~= before.subrange(0, first.len() as int));
        assert(s.subrange(s.len() - last.len(), s.len() as int) =~= last);
    }
}

/// The Pascal case of two words with a hyphen or an underscore between them is that of the one and
/// that of the other.
pub proof fn law_pascal_words(a: Seq<char>, sep: char, b: Seq<char>, spaces: bool)
    requires
        sep == '-' || sep == '_',
    ensures
        pascal(a.push(sep) + b, spaces) == pascal(a, spaces) + pascal(b, spaces),
{
    lemma_pascal_front(a, a.push(sep) + b, spaces, a.len());
    let s = a.push(sep) + b;
    assert(s[a.len() as int] == sep);
    assert(pascal_prefix(s, spaces, (a.len() + 1) as nat) == pascal(a, spaces));
    lemma_pascal_back(a.push(sep), b, spaces, b.len());
}

proof fn lemma_pascal_front(a: Seq<char>, s: Seq<char>, spaces: bool, n: nat)
    requires
        n <= a.len() <= s.len(),
        forall|k: int| 0 <= k < a.len() ==> #[trigger] s[k] == a[k],
    ensures
        pascal_prefix(s, spaces, n) == pascal_prefix(a, spaces, n),
    decreases n,
{
    if n > 0 {
        lemma_pascal_front(a, s, spaces, (n - 1) as nat);
        assert(s[n - 1] == a[n - 1]);
        if n > 1 {
            assert(s[n - 2] == a[n - 2]);
        }
    }
}

proof fn lemma_pascal_back(a: Seq<char>, b: Seq<char>, spaces: bool, n: nat)
    requires
        a.len() > 0,
        parts_words(a.last(), spaces),
        n <= b.len(),
    ensures
        pascal_prefix(a + b, spaces, a.len() + n) == pascal_prefix(a + b, spaces, a.len())
            + pascal_prefix(b, spaces, n),
    decreases n,
{
    let s = a + b;
    let head = pascal_prefix(s, spaces, a.len());
    if n == 0 {
        assert(head + Seq::<char>::empty() =~= head);
    } else {
        lemma_pascal_back(a, b, spaces, (n - 1) as nat);
        let mid = pascal_prefix(b, spaces, (n - 1) as nat);
        let c = b[n - 1];
        assert(s[a.len() + n - 1] == c);
        assert(s[a.len() + n - 2] == if n == 1 {
            a.last()
        } else {
            b[n - 2]
        });
        assert(begins_word(s, a.len() + n - 1, spaces) == begins_word(b, n - 1, spaces));
        assert((head + mid) + upper(c) =~= head + (mid + upper(c)));
        assert((head + mid).push(c) =~= head + mid.push(c));
    }
}

/// The Pascal case of one word is the word with its first character in upper case.
pub proof fn law_pascal_word(s: Seq<char>, spaces: bool)
    requires
        s.len() > 0,
        forall|k: int| 0 <= k < s.len() ==> !parts_words(#[trigger] s[k], spaces),
    ensures
        pascal(s, spaces) == upper(s[0]) + s.skip(1),
        'a' <= s[0] <= 'z' ==> upper(s[0]).len() == 1 && upper(s[0])[0] as int - 'A' as int
            == s[0] as int - 'a' as int,
{
    lemma_pascal_word(s, spaces, s.len());
    assert(s.subrange(1, s.len() as int) =~= s.skip(1));
}

proof fn lemma_pascal_word(s: Seq<char>, spaces: bool, n: nat)
    requires
        0 < n <= s.len(),
        forall|k: int| 0 <= k < s.len() ==> !parts_words(#[trigger] s[k], spaces),
    ensures
        pascal_prefix(s, spaces, n) == upper(s[0]) + s.subrange(1, n as int),
    decreases n,
{
    assert(!parts_words(s[n - 1], spaces));
    if n == 1 {
        assert(pascal_prefix(s, spaces, 0) + upper(s[0]) =~= upper(s[0]) + s.subrange(1, 1));
    } else {
        lemma_pascal_word(s, spaces, (n - 1) as nat);
        assert(!parts_words(s[n - 2], spaces));
        assert((upper(s[0]) + s.subrange(1, n - 1)).push(s[n - 1]) =~= upper(s[0]) + s.subrange(
            1,
            n as int,
        ));
    }
}

} // verus!
