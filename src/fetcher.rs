use vstd::prelude::*;

verus! {

/// Longest run of consecutive decimal digits the parser is handed; the
/// integer and fraction digits of a number accumulate in 64 bits, and a
/// longer run could overflow them.
pub const MAX_DIGIT_RUN: usize = 18;

/// Longest run of digits the parser is handed right after an exponent mark
/// (`e` or `E`, possibly followed by a sign); exponent digits accumulate in
/// 32 bits.
pub const MAX_EXPONENT_RUN: usize = 9;

/// HTTP status of a successful response.
pub const STATUS_OK: u16 = 200;

/// Why fetching a price failed.
#[derive(Clone, Copy, Debug, PartialEq, Eq, Structural)]
pub enum FetchError {
    /// The deadline passed before a response arrived.
    DeadlineReached,
    /// The request could not be sent.
    IoError,
    /// A response arrived but held no usable price.
    Unknown,
}

/// Status code and body of a response.
pub struct HttpResponse {
    pub code: u16,
    pub body: Vec<u8>,
}

/// A JSON number as the parser reports it: signed integer part, fractional
/// digits as an integer, and how many fractional digits were written.
pub type JsonNumber = (i64, u64, u32);

/// Members of a JSON object: key, and the value when it is a number.
pub type Members = Vec<(Vec<char>, Option<JsonNumber>)>;

/// The members of the object that a JSON text denotes, each value reduced to
/// its number or `None`; `None` when the text is not JSON or not an object.
pub uninterp spec fn json_members(s: Seq<char>) -> Option<Seq<(Seq<char>, Option<JsonNumber>)>>;

pub open spec fn members_view(m: Seq<(Vec<char>, Option<JsonNumber>)>) -> Seq<(Seq<char>, Option<JsonNumber>)> {
    m.map_values(|e: (Vec<char>, Option<JsonNumber>)| (e.0@, e.1))
}

pub open spec fn is_digit(c: char) -> bool {
    '0' <= c && c <= '9'
}

/// Length of the run of digits that ends the text.
pub open spec fn trailing_digits(s: Seq<char>) -> nat
    decreases s.len(),
{
    if s.len() == 0 || !is_digit(s.last()) {
        0
    } else {
        1 + trailing_digits(s.drop_last())
    }
}

pub open spec fn is_exponent_char(c: char) -> bool {
    c == 'e' || c == 'E'
}

/// A digit run starting at index `k` would be read as exponent digits: it
/// follows `e` or `E`, directly or after a sign.
pub open spec fn after_exponent_mark(s: Seq<char>, k: int) -> bool {
    (1 <= k && is_exponent_char(s[k - 1]))
        || (2 <= k && (s[k - 1] == '+' || s[k - 1] == '-') && is_exponent_char(s[k - 2]))
}

/// The bound on the run of digits that ends the text.
pub open spec fn run_limit(s: Seq<char>) -> nat {
    if after_exponent_mark(s, s.len() - trailing_digits(s)) {
        MAX_EXPONENT_RUN as nat
    } else {
        MAX_DIGIT_RUN as nat
    }
}

/// Where a left-to-right reading of the text ends: whether it is inside a
/// string literal, and whether the last character there was an unconsumed
/// backslash.
pub open spec fn lex_state(s: Seq<char>) -> (bool, bool)
    decreases s.len(),
{
    if s.len() == 0 {
        (false, false)
    } else {
        let prior = lex_state(s.drop_last());
        let c = s.last();
        if !prior.0 {
            (c == '"', false)
        } else if prior.1 {
            (true, false)
        } else if c == '\\' {
            (true, true)
        } else {
            (c != '"', false)
        }
    }
}

/// The text ends inside a string literal.
pub open spec fn in_string(s: Seq<char>) -> bool {
    lex_state(s).0
}

/// Outside string literals, no run of digits after an exponent mark is
/// longer than `MAX_EXPONENT_RUN`, and no other run is longer than
/// `MAX_DIGIT_RUN`. Digits inside strings are not bounded.
pub open spec fn digit_runs_short(s: Seq<char>) -> bool {
    forall|j: int|
        0 <= j <= s.len() ==> in_string(s.subrange(0, j))
            || #[trigger] trailing_digits(s.subrange(0, j)) <= run_limit(s.subrange(0, j))
}

/// Relies on `std::str::from_utf8`: the text the bytes encode, if they are
/// well-formed UTF-8.
#[verifier::external_body]
fn decode_utf8(body: &Vec<u8>) -> (r: Option<String>)
    ensures
        r is Some <==> vstd::utf8::valid_utf8(body@),
        r matches Some(s) ==> s@ == vstd::utf8::decode_utf8(body@),
{
    match std::str::from_utf8(body.as_slice()) {
        Ok(s) => Some(String::from(s)),
        Err(_) => None,
    }
}

/// Relies on `lite_json::parse_json`: the parsed value when it is an object,
/// with each member's value reduced to its number fields (`exponent` is not
/// kept). Digit runs outside string literals are bounded because the parser
/// accumulates number digits in fixed-width integers without overflow checks.
#[verifier::external_body]
fn parse_json_members(s: &str) -> (r: Option<Members>)
    requires
        digit_runs_short(s@),
    ensures
        r is None <==> json_members(s@) is None,
        r matches Some(m) ==> json_members(s@) == Some(members_view(m@)),
{
    match lite_json::parse_json(s) {
        Ok(lite_json::JsonValue::Object(obj)) => Some(obj.into_iter().map(|(k, v)| match v {
            lite_json::JsonValue::Number(n) => (k, Some((n.integer, n.fraction, n.fraction_length))),
            _ => (k, None),
        }).collect()),
        _ => None,
    }
}

pub open spec fn usd_key() -> Seq<char> {
    seq!['U', 'S', 'D']
}

/// The value of the first member keyed "USD", if there is one.
pub open spec fn usd_value(m: Seq<(Seq<char>, Option<JsonNumber>)>) -> Option<Option<JsonNumber>>
    decreases m.len(),
{
    if m.len() == 0 {
        None
    } else if m[0].0 == usd_key() {
        Some(m[0].1)
    } else {
        usd_value(m.drop_first())
    }
}

pub open spec fn pow10(e: nat) -> nat
    decreases e,
{
    if e == 0 {
        1
    } else {
        10 * pow10((e - 1) as nat)
    }
}

/// A number in cents: the integer part times 100 plus the fractional digits
/// cut or kept to two places, `fraction / 10^max(fraction_length - 2, 0)`.
pub open spec fn cents(n: JsonNumber) -> int {
    let exp: nat = if n.2 >= 2 { (n.2 - 2) as nat } else { 0 };
    n.0 * 100 + n.1 as int / pow10(exp) as int
}

/// The price in cents of the first "USD" member, when that member is a
/// non-negative number whose cents fit in a `u32`.
pub open spec fn usd_price(m: Seq<(Seq<char>, Option<JsonNumber>)>) -> Option<u32> {
    match usd_value(m) {
        Some(Some(n)) => if 0 <= n.0 && cents(n) <= u32::MAX { Some(cents(n) as u32) } else { None },
        _ => None,
    }
}

/// The price a response text gives.
pub open spec fn price_in(s: Seq<char>) -> Option<u32> {
    if !digit_runs_short(s) {
        None
    } else {
        match json_members(s) {
            Some(m) => usd_price(m),
            None => None,
        }
    }
}

/// What fetching yields for a response with this status and body.
pub open spec fn price_of_response(code: u16, body: Seq<u8>) -> Result<u32, FetchError> {
    if code != STATUS_OK {
        Err(FetchError::Unknown)
    } else {
        if !vstd::utf8::valid_utf8(body) {
            Err(FetchError::Unknown)
        } else {
            match price_in(vstd::utf8::decode_utf8(body)) {
                Some(p) => Ok(p),
                None => Err(FetchError::Unknown),
            }
        }
    }
}

proof fn lemma_pow10_grows(e: nat)
    ensures
        pow10(e) >= e + 1,
    decreases e,
{
    if e > 0 {
        lemma_pow10_grows((e - 1) as nat);
    }
}

proof fn lemma_pow10_monotonic(a: nat, b: nat)
    requires
        a <= b,
    ensures
        pow10(a) <= pow10(b),
    decreases b,
{
    if a < b {
        lemma_pow10_monotonic(a, (b - 1) as nat);
    }
}

proof fn lemma_trailing_digits_bounded(s: Seq<char>)
    ensures
        trailing_digits(s) <= s.len(),
    decreases s.len(),
{
    if s.len() > 0 && is_digit(s.last()) {
        lemma_trailing_digits_bounded(s.drop_last());
    }
}

/// Whether a digit run starting at index `k` of the text would be read as
/// exponent digits.
fn starts_exponent_run(s: &str, k: usize) -> (r: bool)
    requires
        k <= s@.len(),
    ensures
        r == after_exponent_mark(s@, k as int),
{
    (k >= 1 && (s.get_char(k - 1) == 'e' || s.get_char(k - 1) == 'E'))
        || (k >= 2 && (s.get_char(k - 1) == '+' || s.get_char(k - 1) == '-')
            && (s.get_char(k - 2) == 'e' || s.get_char(k - 2) == 'E'))
}

/// Whether every digit run outside string literals is within its bound.
fn has_short_digit_runs(s: &str) -> (r: bool)
    ensures
        r == digit_runs_short(s@),
{
    let n = s.unicode_len();
    let mut run: usize = 0;
    let mut exponent_run: bool = false;
    let mut in_str: bool = false;
    let mut escaped: bool = false;
    let mut i: usize = 0;
    assert(s@.subrange(0, 0) =~= Seq::<char>::empty());
    while i < n
        invariant
            n == s@.len(),
            i <= n,
            run == trailing_digits(s@.subrange(0, i as int)),
            run > 0 ==> exponent_run == after_exponent_mark(s@, i - run),
            (in_str, escaped) == lex_state(s@.subrange(0, i as int)),
            forall|j: int|
                0 <= j <= i ==> in_string(s@.subrange(0, j))
                    || #[trigger] trailing_digits(s@.subrange(0, j)) <= run_limit(s@.subrange(0, j)),
        decreases n - i,
    {
        let c = s.get_char(i);
        let ghost p = s@.subrange(0, i as int + 1);
        assert(p.drop_last() =~= s@.subrange(0, i as int));
        assert(p.last() == c);
        proof {
            lemma_trailing_digits_bounded(s@.subrange(0, i as int));
        }
        if !in_str {
            in_str = c == '"';
            escaped = false;
        } else if escaped {
            escaped = false;
        } else if c == '\\' {
            escaped = true;
        } else {
            in_str = c != '"';
        }
        assert((in_str, escaped) == lex_state(p));
        if '0' <= c && c <= '9' {
            if run == 0 {
                exponent_run = starts_exponent_run(s, i);
            }
            run = run + 1;
        } else {
            run = 0;
        }
        assert(run == trailing_digits(p));
        let limit: usize = if exponent_run { MAX_EXPONENT_RUN } else { MAX_DIGIT_RUN };
        if run > 0 {
            let ghost k = i + 1 - run;
            assert(after_exponent_mark(p, k) == after_exponent_mark(s@, k));
            assert(limit == run_limit(p));
        }
        if !in_str && run > limit {
            return false;
        }
        i = i + 1;
    }
    assert(s@.subrange(0, n as int) =~= s@);
    true
}

/// Whether a key is exactly "USD".
fn is_usd_key(k: &Vec<char>) -> (r: bool)
    ensures
        r == (k@ == usd_key()),
{
    let r = k.len() == 3 && k[0] == 'U' && k[1] == 'S' && k[2] == 'D';
    if r {
        assert(k@ =~= usd_key());
    }
    r
}

/// `fraction / 10^exp`, for any `exp`.
fn scale_down(fraction: u64, exp: u32) -> (r: u64)
    ensures
        r as int == fraction as int / pow10(exp as nat) as int,
{
    if exp >= 20 {
        proof {
            lemma_pow10_monotonic(20, exp as nat);
            reveal_with_fuel(pow10, 21);
            assert(pow10(20) == 100000000000000000000nat);
            vstd::arithmetic::div_mod::lemma_basic_div(fraction as int, pow10(exp as nat) as int);
        }
        return 0;
    }
    let mut divisor: u64 = 1;
    let mut i: u32 = 0;
    while i < exp
        invariant
            i <= exp < 20,
            divisor as nat == pow10(i as nat),
            divisor > 0,
        decreases exp - i,
    {
        proof {
            lemma_pow10_grows((i + 1) as nat);
            lemma_pow10_monotonic((i + 1) as nat, 19);
            reveal_with_fuel(pow10, 20);
            assert(pow10(19) == 10000000000000000000nat);
        }
        divisor = divisor * 10;
        i = i + 1;
    }
    fraction / divisor
}

/// The price in cents of the first member keyed "USD": `None` when there is
/// no such member, its value is not a number, the number is negative, or its
/// cents do not fit in a `u32`.
pub fn price_from_members(members: &Members) -> (r: Option<u32>)
    ensures
        r == usd_price(members_view(members@)),
{
    let ghost view = members_view(members@);
    assert(view.subrange(0, view.len() as int) =~= view);
    let mut i: usize = 0;
    while i < members.len()
        invariant
            i <= members@.len(),
            view == members_view(members@),
            view.len() == members@.len(),
            usd_value(view) == usd_value(view.subrange(i as int, view.len() as int)),
        decreases members@.len() - i,
    {
        let ghost rest = view.subrange(i as int, view.len() as int);
        assert(rest.drop_first() =~= view.subrange(i as int + 1, view.len() as int));
        if is_usd_key(&members[i].0) {
            assert(rest[0] == view[i as int]);
            match members[i].1 {
                Some(n) => {
                    let (integer, fraction, fraction_length) = n;
                    if integer < 0 {
                        return None;
                    }
                    let exp: u32 = if fraction_length >= 2 { fraction_length - 2 } else { 0 };
                    let low = scale_down(fraction, exp);
                    let whole = (integer as u64).checked_mul(100);
                    match whole {
                        Some(w) => match w.checked_add(low) {
                            Some(c) => {
                                if c > u32::MAX as u64 {
                                    return None;
                                }
                                return Some(c as u32);
                            },
                            None => return None,
                        },
                        None => return None,
                    }
                },
                None => return None,
            }
        }
        i = i + 1;
    }
    None
}

/// The price in cents that a response text gives: the text must be a JSON
/// object whose first "USD" member is a non-negative number, and its cents
/// must fit in a `u32`. Texts with a run of more than `MAX_DIGIT_RUN` digits,
/// or of more than `MAX_EXPONENT_RUN` right after an exponent mark, outside
/// string literals give `None`: the parser's number fields could overflow on
/// them.
pub fn parse_price(price_str: &str) -> (r: Option<u32>)
    ensures
        r == price_in(price_str@),
{
    if !has_short_digit_runs(price_str) {
        return None;
    }
    match parse_json_members(price_str) {
        Some(members) => price_from_members(&members),
        None => None,
    }
}

/// The price in cents from the outcome of the request: a failed request
/// keeps its error; a response whose status is not `STATUS_OK`, whose body is
/// not UTF-8 or holds no price gives `Unknown`.
pub fn fetch_price(response: &Result<HttpResponse, FetchError>) -> (r: Result<u32, FetchError>)
    ensures
        match *response {
            Err(e) => r == Err::<u32, FetchError>(e),
            Ok(resp) => r == price_of_response(resp.code, resp.body@),
        },
{
    match response {
        Err(e) => Err(*e),
        Ok(resp) => {
            if resp.code != STATUS_OK {
                return Err(FetchError::Unknown);
            }
            match decode_utf8(&resp.body) {
                Some(text) => match parse_price(text.as_str()) {
                    Some(price) => Ok(price),
                    None => Err(FetchError::Unknown),
                },
                None => Err(FetchError::Unknown),
            }
        },
    }
}

} // verus!
