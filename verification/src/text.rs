use vstd::prelude::*;
use vstd::string::*;
use vstd::utf8;

verus! {

/// The character of a single digit.
pub open spec fn digit(d: nat) -> char {
    (48 + d) as char
}

/// Decimal notation of a number, without leading zeros.
pub open spec fn digits(n: nat) -> Seq<char>
    decreases n,
{
    if n < 10 {
        seq![digit(n)]
    } else {
        digits(n / 10).push(digit(n % 10))
    }
}

/// The last `width` digits of a number.
pub open spec fn padded_digits(n: nat, width: nat) -> Seq<char>
    decreases width,
{
    if width == 0 {
        Seq::empty()
    } else {
        padded_digits(n / 10, (width - 1) as nat).push(digit(n % 10))
    }
}

/// Decimal notation of a number that may be negative.
pub open spec fn signed_digits(n: int) -> Seq<char> {
    if n < 0 {
        seq!['-'] + digits((-n) as nat)
    } else {
        digits(n as nat)
    }
}

/// The pieces of a text between the occurrences of a separator: one more than there are
/// occurrences.
pub open spec fn pieces(s: Seq<char>, sep: char) -> Seq<Seq<char>>
    decreases s.len(),
{
    if s.len() == 0 {
        seq![Seq::empty()]
    } else {
        let rest = pieces(s.drop_last(), sep);
        if s.last() == sep {
            rest.push(Seq::empty())
        } else {
            rest.drop_last().push(rest.last().push(s.last()))
        }
    }
}

/// A letter from `A` to `Z` becomes the same letter from `a` to `z`.
pub open spec fn ascii_lower_char(c: char) -> char {
    if 'A' <= c && c <= 'Z' {
        (c as u32 + 32) as char
    } else {
        c
    }
}

pub open spec fn ascii_lower(s: Seq<char>) -> Seq<char> {
    s.map_values(|c: char| ascii_lower_char(c))
}

/// Whether a text occurs within another.
pub open spec fn has_part(s: Seq<char>, part: Seq<char>) -> bool {
    exists|i: int| #[trigger] part_at(s, part, i)
}

/// Whether a text stands within another at a position.
pub open spec fn part_at(s: Seq<char>, part: Seq<char>, i: int) -> bool {
    0 <= i <= s.len() - part.len() && s.subrange(i, i + part.len()) == part
}

/// The texts of a list.
pub open spec fn views(v: Seq<String>) -> Seq<Seq<char>> {
    v.map_values(|s: String| s@)
}

/// A text without the separator is a single piece.
pub proof fn pieces_of_plain(s: Seq<char>, sep: char)
    requires
        !s.contains(sep),
    ensures
        pieces(s, sep) == seq![s],
    decreases s.len(),
{
    if s.len() > 0 {
        let front = s.drop_last();
        assert forall|i: int| 0 <= i < front.len() implies front[i] != sep by {
            assert(s[i] == front[i]);
            assert(s.contains(s[i]));
        }
        assert(!front.contains(sep));
        pieces_of_plain(front, sep);
        assert(s.contains(s.last()));
        assert(front.push(s.last()) =~= s);
        assert(seq![front].drop_last().push(s) =~= seq![s]);
    } else {
        assert(s =~= Seq::empty());
    }
}

/// Behind a separator a text without one is a piece of its own.
pub proof fn pieces_after_separator(s: Seq<char>, t: Seq<char>, sep: char)
    requires
        !t.contains(sep),
    ensures
        pieces(s + seq![sep] + t, sep) == pieces(s, sep).push(t),
    decreases t.len(),
{
    let whole = s + seq![sep] + t;
    if t.len() == 0 {
        assert(whole.drop_last() =~= s);
        assert(whole.last() == sep);
        assert(t =~= Seq::empty());
    } else {
        let front = t.drop_last();
        assert forall|i: int| 0 <= i < front.len() implies front[i] != sep by {
            assert(t[i] == front[i]);
            assert(t.contains(t[i]));
        }
        assert(!front.contains(sep));
        pieces_after_separator(s, front, sep);
        assert(whole.drop_last() =~= s + seq![sep] + front);
        assert(whole.last() == t.last());
        assert(t.contains(t.last()));
        let rest = pieces(s, sep).push(front);
        assert(front.push(t.last()) =~= t);
        assert(rest.drop_last().push(rest.last().push(t.last())) =~= pieces(s, sep).push(t));
    }
}

/// `<str as PartialEq>::eq`: two string slices are equal when they hold the same text.
pub assume_specification[ <str as PartialEq>::eq ](a: &str, b: &str) -> (r: bool)
    ensures
        r == (a@ == b@),
;

/// `String::push` appends one character.
pub assume_specification[ String::push ](s: &mut String, c: char)
    ensures
        final(s)@ == old(s)@.push(c),
;

/// What the standard library writes for a text between quotation marks, with escapes.
pub uninterp spec fn quoted(s: Seq<char>) -> Seq<char>;

/// Calls `<str as Debug>::fmt`, which puts a text between quotation marks and escapes what does
/// not print. How it escapes is left to the name.
#[verifier::external_body]
pub(crate) fn quote(s: &str) -> (r: String)
    ensures
        r@ == quoted(s@),
{
    format!("{:?}", s)
}

/// Whether two texts are the same.
pub fn same(a: &str, b: &str) -> (r: bool)
    ensures
        r == (a@ == b@),
{
    a.eq(b)
}

/// The characters of a text.
pub fn to_chars(s: &str) -> (r: Vec<char>)
    ensures
        r@ == s@,
{
    let mut out: Vec<char> = Vec::new();
    for c in it: s.chars()
        invariant
            it.seq() == s@,
            out@ == s@.take(it.index() as int),
    {
        out.push(c);
    }
    out
}

/// The text with the given characters.
pub fn from_chars(cs: &Vec<char>) -> (r: String)
    ensures
        r@ == cs@,
{
    let mut out: String = String::new();
    for i in 0..cs.len()
        invariant
            out@ == cs@.take(i as int),
    {
        out.push(cs[i]);
        assert(cs@.take(i as int).push(cs@[i as int]) =~= cs@.take(i + 1));
    }
    assert(cs@.take(cs@.len() as int) =~= cs@);
    out
}

/// One text after the other.
pub fn concat(a: &str, b: &str) -> (r: String)
    ensures
        r@ == a@ + b@,
{
    let mut out: String = a.to_owned();
    out.append(b);
    out
}

/// Three texts in a row.
pub fn concat3(a: &str, b: &str, c: &str) -> (r: String)
    ensures
        r@ == a@ + b@ + c@,
{
    let mut out: String = a.to_owned();
    out.append(b);
    out.append(c);
    out
}

/// Decimal notation of a number.
pub fn number(n: u64) -> (r: String)
    ensures
        r@ == digits(n as nat),
    decreases n,
{
    if n < 10 {
        let mut out: String = String::new();
        out.push(digit_char(n));
        assert(out@ =~= seq![digit(n as nat)]);
        out
    } else {
        let mut out: String = number(n / 10);
        out.push(digit_char(n % 10));
        out
    }
}

fn digit_char(d: u64) -> (c: char)
    requires
        d < 10,
    ensures
        c == digit(d as nat),
{
    (48 + d as u8) as char
}

/// Decimal notation of a number that may be negative.
pub fn signed_number(n: i64) -> (r: String)
    ensures
        r@ == signed_digits(n as int),
{
    if n < 0 {
        let magnitude: u64 = (-(n as i128)) as u64;
        let mut out: String = String::new();
        out.push('-');
        out.append(number(magnitude).as_str());
        assert(out@ =~= signed_digits(n as int));
        out
    } else {
        number(n as u64)
    }
}

/// Whether a text occurs within another.
pub fn contains(s: &str, part: &str) -> (r: bool)
    ensures
        r == has_part(s@, part@),
{
    let cs = to_chars(s);
    let ps = to_chars(part);
    if ps.len() > cs.len() {
        return false;
    }
    let n: usize = cs.len();
    let last: usize = n - ps.len();
    let mut i: usize = 0;
    while i <= last
        invariant
            cs@ == s@,
            ps@ == part@,
            n == cs@.len(),
            last == cs@.len() - ps@.len(),
            i <= last,
            forall|j: int| 0 <= j < i ==> !#[trigger] part_at(s@, part@, j),
        decreases last - i,
    {
        let mut equal: bool = true;
        for j in 0..ps.len()
            invariant
                cs@ == s@,
                ps@ == part@,
                n == cs@.len(),
                i <= last,
                last == cs@.len() - ps@.len(),
                equal <==> forall|k: int| 0 <= k < j ==> #[trigger] ps@[k] == cs@[i + k],
        {
            if cs[i + j] != ps[j] {
                equal = false;
            }
        }
        if equal {
            assert(s@.subrange(i as int, i + part@.len()) =~= part@);
            assert(part_at(s@, part@, i as int));
            return true;
        }
        proof {
            if part_at(s@, part@, i as int) {
                assert forall|k: int| 0 <= k < ps@.len() implies #[trigger] ps@[k] == cs@[i + k] by {
                    assert(s@.subrange(i as int, i + part@.len())[k] == part@[k]);
                }
            }
        }
        if i == last {
            return false;
        }
        i = i + 1;
    }
    false
}

/// The pieces of a text between the occurrences of a separator.
pub fn split(s: &str, sep: char) -> (r: Vec<String>)
    ensures
        r@.len() == pieces(s@, sep).len(),
        forall|i: int| 0 <= i < r@.len() ==> (#[trigger] r@[i])@ == pieces(s@, sep)[i],
{
    let cs = to_chars(s);
    let mut done: Vec<String> = Vec::new();
    let mut current: String = String::new();
    for i in 0..cs.len()
        invariant
            cs@ == s@,
            done@.len() + 1 == pieces(cs@.take(i as int), sep).len(),
            forall|j: int| 0 <= j < done@.len() ==> (#[trigger] done@[j])@ == pieces(cs@.take(i as int), sep)[j],
            current@ == pieces(cs@.take(i as int), sep).last(),
    {
        assert(cs@.take(i + 1).drop_last() =~= cs@.take(i as int));
        if cs[i] == sep {
            done.push(current);
            current = String::new();
        } else {
            current.push(cs[i]);
        }
    }
    assert(cs@.take(cs@.len() as int) =~= s@);
    done.push(current);
    done
}

/// The text with every letter from `A` to `Z` turned into its lower-case form.
pub fn to_ascii_lower(s: &str) -> (r: String)
    ensures
        r@ == ascii_lower(s@),
{
    let cs = to_chars(s);
    let mut out: String = String::new();
    for i in 0..cs.len()
        invariant
            cs@ == s@,
            out@ == ascii_lower(cs@.take(i as int)),
    {
        let c = cs[i];
        assert(cs@.take(i + 1) =~= cs@.take(i as int).push(c));
        assert(ascii_lower(cs@.take(i + 1)) =~= ascii_lower(cs@.take(i as int)).push(ascii_lower_char(c)));
        if 'A' <= c && c <= 'Z' {
            out.push((c as u8 + 32) as char);
        } else {
            out.push(c);
        }
    }
    assert(cs@.take(cs@.len() as int) =~= s@);
    out
}

/// The part of a text before the first occurrence of a separator; all of it where there is none.
pub open spec fn before(s: Seq<char>, sep: char) -> Seq<char>
    decreases s.len(),
{
    if s.len() == 0 {
        Seq::empty()
    } else if s[0] == sep {
        Seq::empty()
    } else {
        seq![s[0]] + before(s.skip(1), sep)
    }
}

/// A text without the separator, followed by a separator or by nothing, is what stands before it.
pub proof fn before_of_plain(a: Seq<char>, rest: Seq<char>, sep: char)
    requires
        !a.contains(sep),
        rest.len() == 0 || rest[0] == sep,
    ensures
        before(a + rest, sep) == a,
    decreases a.len(),
{
    if a.len() == 0 {
        assert(a + rest =~= rest);
    } else {
        assert((a + rest).skip(1) =~= a.skip(1) + rest);
        assert(a.contains(a[0]));
        assert forall|c: char| a.skip(1).contains(c) implies a.contains(c) by {
            let i = choose|i: int| 0 <= i < a.skip(1).len() && a.skip(1)[i] == c;
            assert(a[i + 1] == c);
        }
        before_of_plain(a.skip(1), rest, sep);
        assert(seq![a[0]] + a.skip(1) =~= a);
    }
}

/// The part of a text before the first occurrence of a separator.
pub fn first_piece(s: &str, sep: char) -> (r: String)
    ensures
        r@ == before(s@, sep),
{
    let cs = to_chars(s);
    let mut out: String = String::new();
    assert(cs@.skip(0) =~= cs@);
    assert(out@ + cs@ =~= cs@);
    for i in 0..cs.len()
        invariant
            cs@ == s@,
            out@ + before(cs@.skip(i as int), sep) == before(s@, sep),
    {
        assert(cs@.skip(i as int).skip(1) =~= cs@.skip(i + 1));
        if cs[i] == sep {
            assert(out@ + Seq::<char>::empty() =~= out@);
            return out;
        }
        let ghost so_far = out@;
        out.push(cs[i]);
        assert(so_far + (seq![cs@[i as int]] + before(cs@.skip(i + 1), sep)) =~= out@ + before(cs@.skip(i + 1), sep));
    }
    assert(out@ + Seq::<char>::empty() =~= out@);
    out
}

/// The first `n` bytes of a text as a text: all of it where it is not longer, and nothing where
/// the cut would go through a character.
pub open spec fn cut_at(s: Seq<char>, n: nat) -> Option<Seq<char>> {
    let bytes = utf8::encode_utf8(s);
    if bytes.len() <= n {
        Some(s)
    } else if utf8::is_char_boundary(bytes, n as int) {
        Some(utf8::decode_utf8(bytes.subrange(0, n as int)))
    } else {
        None
    }
}

/// The bytes of a text that is put together are those of its parts.
pub proof fn bytes_of_concat(a: Seq<char>, b: Seq<char>)
    ensures
        utf8::encode_utf8(a + b) == utf8::encode_utf8(a) + utf8::encode_utf8(b),
    decreases a.len(),
{
    if a.len() == 0 {
        assert(a + b =~= b);
        assert(utf8::encode_utf8(a) + utf8::encode_utf8(b) =~= utf8::encode_utf8(b));
    } else {
        assert((a + b).drop_first() =~= a.drop_first() + b);
        bytes_of_concat(a.drop_first(), b);
        assert(utf8::encode_scalar(a[0] as u32) + (utf8::encode_utf8(a.drop_first()) + utf8::encode_utf8(b)) =~= (
        utf8::encode_scalar(a[0] as u32) + utf8::encode_utf8(a.drop_first())) + utf8::encode_utf8(b));
    }
}

/// A text that is cut is a beginning of the text and fits; a beginning of the text that fits is
/// still in it.
pub proof fn cut_keeps_beginning(a: Seq<char>, b: Seq<char>, n: nat)
    requires
        cut_at(a + b, n) is Some,
        utf8::encode_utf8(a).len() <= n,
    ensures
        utf8::encode_utf8(cut_at(a + b, n)->0).len() <= n,
        utf8::encode_utf8(a + b).len() > n ==> utf8::encode_utf8(cut_at(a + b, n)->0).len() == n,
        a.len() <= cut_at(a + b, n)->0.len() <= (a + b).len(),
        cut_at(a + b, n)->0 == (a + b).take(cut_at(a + b, n)->0.len() as int),
{
    let s = a + b;
    let bytes = utf8::encode_utf8(s);
    let c = cut_at(s, n)->0;
    if bytes.len() <= n {
        assert(s.take(s.len() as int) =~= s);
    } else {
        utf8::encode_utf8_valid_utf8(s);
        utf8::encode_utf8_decode_utf8(s);
        utf8::decode_utf8_split(bytes, n as int);
        utf8::valid_utf8_split(bytes, n as int);
        utf8::decode_utf8_encode_utf8(bytes.subrange(0, n as int));
        let rest = utf8::decode_utf8(bytes.subrange(n as int, bytes.len() as int));
        assert(s =~= c + rest);
        assert(c =~= s.take(c.len() as int));
        assert(utf8::encode_utf8(c).len() == n);
        if c.len() < a.len() {
            let more = a.skip(c.len() as int);
            assert(a =~= c + more);
            bytes_of_concat(c, more);
            assert(more.len() > 0);
            assert(utf8::encode_utf8(more).len() > 0);
        }
    }
}

/// The first `n` bytes of a text as a text.
pub fn cut(s: &str, n: usize) -> (r: Option<String>)
    ensures
        match r {
            Some(c) => cut_at(s@, n as nat) == Some(c@),
            None => cut_at(s@, n as nat) is None,
        },
{
    if s.as_bytes().len() <= n {
        Some(s.to_owned())
    } else if s.is_char_boundary(n) {
        let (head, _) = s.split_at(n);
        proof {
            utf8::encode_utf8_decode_utf8(head@);
        }
        Some(head.to_owned())
    } else {
        None
    }
}

/// Whether a character is a digit.
pub open spec fn is_digit(c: char) -> bool {
    '0' <= c && c <= '9'
}

/// The number that digits stand for.
pub open spec fn digits_value(s: Seq<char>) -> nat
    decreases s.len(),
{
    if s.len() == 0 {
        0
    } else {
        10 * digits_value(s.drop_last()) + (s.last() as nat - 48) as nat
    }
}

/// A text without a leading plus sign.
pub open spec fn without_plus(s: Seq<char>) -> Seq<char> {
    if s.len() > 0 && s[0] == '+' {
        s.skip(1)
    } else {
        s
    }
}

/// The number that a text writes in decimal notation, with or without a plus sign.
pub open spec fn unsigned(s: Seq<char>) -> Option<u64> {
    let body = without_plus(s);
    if body.len() > 0 && (forall|i: int| 0 <= i < body.len() ==> is_digit(#[trigger] body[i])) && digits_value(body)
        <= u64::MAX {
        Some(digits_value(body) as u64)
    } else {
        None
    }
}

proof fn value_grows(s: Seq<char>, i: int)
    requires
        0 <= i <= s.len(),
        forall|j: int| 0 <= j < s.len() ==> is_digit(#[trigger] s[j]),
    ensures
        digits_value(s.take(i)) <= digits_value(s),
    decreases s.len() - i,
{
    if i < s.len() {
        assert(s.take(i + 1).drop_last() =~= s.take(i));
        value_grows(s, i + 1);
    } else {
        assert(s.take(i) =~= s);
    }
}

/// Reads a number in decimal notation.
pub fn parse_unsigned(s: &str) -> (r: Option<u64>)
    ensures
        r == unsigned(s@),
{
    let cs = to_chars(s);
    let start: usize = if cs.len() > 0 && cs[0] == '+' {
        1
    } else {
        0
    };
    let ghost body = without_plus(s@);
    assert(body =~= cs@.skip(start as int));
    if start == cs.len() {
        return None;
    }
    let mut value: u64 = 0;
    for i in start..cs.len()
        invariant
            start <= 1,
            start < cs@.len(),
            cs@ == s@,
            body == without_plus(s@),
            body == cs@.skip(start as int),
            value == digits_value(body.take(i - start)),
            forall|j: int| 0 <= j < i - start ==> is_digit(#[trigger] body[j]),
    {
        let c = cs[i];
        assert(body[i - start] == c);
        if c < '0' || c > '9' {
            assert(!is_digit(body[i - start]));
            return None;
        }
        assert(body.take(i + 1 - start).drop_last() =~= body.take(i - start));
        let d: u64 = c as u64 - 48;
        if value > (u64::MAX - d) / 10 {
            proof {
                if forall|j: int| 0 <= j < body.len() ==> is_digit(#[trigger] body[j]) {
                    value_grows(body, i + 1 - start);
                }
            }
            return None;
        }
        value = value * 10 + d;
    }
    assert(body.take(body.len() as int) =~= body);
    Some(value)
}

/// The number that a text writes in decimal notation, with or without a sign.
pub open spec fn signed(s: Seq<char>) -> Option<i64> {
    if s.len() > 0 && s[0] == '-' {
        if s.len() > 1 && s[1] == '+' {
            None
        } else {
            match unsigned(s.skip(1)) {
                Some(n) => if n <= 0x8000_0000_0000_0000 {
                    Some((-(n as int)) as i64)
                } else {
                    None
                },
                None => None,
            }
        }
    } else {
        match unsigned(s) {
            Some(n) => if n <= i64::MAX {
                Some(n as i64)
            } else {
                None
            },
            None => None,
        }
    }
}

/// Reads a number in decimal notation that may be negative.
pub fn parse_signed(s: &str) -> (r: Option<i64>)
    ensures
        r == signed(s@),
{
    let cs = to_chars(s);
    if cs.len() > 0 && cs[0] == '-' {
        if cs.len() > 1 && cs[1] == '+' {
            return None;
        }
        let mut body: String = String::new();
        assert(body@ =~= cs@.skip(1).take(0));
        for i in 1..cs.len()
            invariant
                cs@ == s@,
                cs@.len() > 0,
                body@ == cs@.skip(1).take(i - 1),
        {
            body.push(cs[i]);
            assert(cs@.skip(1).take(i - 1).push(cs@[i as int]) =~= cs@.skip(1).take(i as int));
        }
        assert(cs@.skip(1).take(cs@.len() - 1) =~= cs@.skip(1));
        match parse_unsigned(body.as_str()) {
            Some(n) => if n < 0x8000_0000_0000_0000 {
                Some(-(n as i64))
            } else if n == 0x8000_0000_0000_0000 {
                Some(i64::MIN)
            } else {
                None
            },
            None => None,
        }
    } else {
        match parse_unsigned(s) {
            Some(n) => if n <= i64::MAX as u64 {
                Some(n as i64)
            } else {
                None
            },
            None => None,
        }
    }
}

/// A number reads back from its own notation.
pub proof fn digits_read_back(n: nat)
    requires
        n <= u64::MAX,
    ensures
        unsigned(digits(n)) == Some(n as u64),
{
    digits_are_digits(n);
}

/// A number has at least one digit, and its digits stand for it.
pub proof fn digits_are_digits(n: nat)
    ensures
        digits(n).len() > 0,
        forall|i: int| 0 <= i < digits(n).len() ==> is_digit(#[trigger] digits(n)[i]),
        digits_value(digits(n)) == n,
    decreases n,
{
    if n < 10 {
        assert(digits(n).drop_last() =~= Seq::<char>::empty());
        assert(digits_value(digits(n).drop_last()) == 0);
    } else {
        digits_are_digits(n / 10);
        assert(digits(n).drop_last() =~= digits(n / 10));
    }
}

/// A number with a sign reads back from its own notation.
pub proof fn signed_digits_read_back(n: i64)
    ensures
        signed(signed_digits(n as int)) == Some(n),
{
    if n < 0 {
        let d = digits((-(n as int)) as nat);
        digits_are_digits((-(n as int)) as nat);
        digits_read_back((-(n as int)) as nat);
        assert(is_digit(d[0]));
        assert(signed_digits(n as int).skip(1) =~= d);
        assert(signed_digits(n as int)[1] == d[0]);
    } else {
        digits_are_digits(n as nat);
        digits_read_back(n as nat);
        assert(is_digit(digits(n as nat)[0]));
    }
}

/// How `str::to_lowercase` writes a text.
pub uninterp spec fn lowercase(s: Seq<char>) -> Seq<char>;

/// Calls `str::to_lowercase`. Which character becomes which is left to the name.
#[verifier::external_body]
pub(crate) fn to_lower(s: &str) -> (r: String)
    ensures
        r@ == lowercase(s@),
{
    s.to_lowercase()
}

/// Texts in a row with a text between each two of them.
pub open spec fn joined(parts: Seq<Seq<char>>, between: Seq<char>) -> Seq<char>
    decreases parts.len(),
{
    if parts.len() == 0 {
        Seq::empty()
    } else if parts.len() == 1 {
        parts[0]
    } else {
        joined(parts.drop_last(), between) + between + parts.last()
    }
}

/// Puts texts in a row with a text between each two of them.
pub fn join(parts: &Vec<String>, between: &str) -> (r: String)
    ensures
        r@ == joined(views(parts@), between@),
{
    let mut out: String = String::new();
    assert(views(parts@.take(0)) =~= Seq::<Seq<char>>::empty());
    for i in 0..parts.len()
        invariant
            out@ == joined(views(parts@.take(i as int)), between@),
    {
        let ghost so_far = views(parts@.take(i as int));
        let ghost this = parts@[i as int]@;
        assert(views(parts@.take(i + 1)) =~= so_far.push(this));
        assert(so_far.push(this).drop_last() =~= so_far);
        if i > 0 {
            out.append(between);
        }
        out.append(parts[i].as_str());
        if i == 0 {
            assert(out@ =~= this);
        }
    }
    assert(parts@.take(parts@.len() as int) =~= parts@);
    out
}

} // verus!
