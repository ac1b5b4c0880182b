use vstd::prelude::*;
use vstd::string::*;

use crate::text::char_at;

verus! {

pub open spec fn is_digit(c: char) -> bool {
    '0' <= c <= '9'
}

pub open spec fn digit_value(c: char) -> nat {
    if is_digit(c) {
        (c as int - '0' as int) as nat
    } else {
        0
    }
}

/// The number that a run of decimal digits denotes.
pub open spec fn decimal_value(d: Seq<char>) -> nat
    decreases d.len(),
{
    if d.len() == 0 {
        0
    } else {
        10 * decimal_value(d.drop_last()) + digit_value(d.last())
    }
}

/// The digits of a port setting: the text without its optional leading `+`.
pub open spec fn port_digits(s: Seq<char>) -> Seq<char> {
    if s.len() > 0 && s[0] == '+' {
        s.drop_first()
    } else {
        s
    }
}

/// The text names a port: an optional `+` and then one or more decimal
/// digits whose value fits in 16 bits. Nothing else, no blank either, may
/// stand in it.
pub open spec fn is_port_text(s: Seq<char>) -> bool {
    let d = port_digits(s);
    &&& d.len() > 0
    &&& forall|i: int| 0 <= i < d.len() ==> is_digit(#[trigger] d[i])
    &&& decimal_value(d) <= 65535
}

pub open spec fn port_value(s: Seq<char>) -> nat {
    decimal_value(port_digits(s))
}

/// A prefix of a run of digits denotes at most what the whole run does.
proof fn lemma_decimal_prefix(d: Seq<char>, k: int)
    requires
        0 <= k <= d.len(),
        forall|i: int| 0 <= i < d.len() ==> is_digit(#[trigger] d[i]),
    ensures
        decimal_value(d.take(k)) <= decimal_value(d),
    decreases d.len(),
{
    if k == d.len() {
        assert(d.take(k) =~= d);
        if d.len() > 0 {
            lemma_decimal_prefix(d.drop_last(), k - 1);
            assert(d.drop_last().take(k - 1) =~= d.drop_last());
        }
    } else {
        let e = d.drop_last();
        assert(e.take(k) =~= d.take(k));
        lemma_decimal_prefix(e, k);
        assert(is_digit(d[d.len() - 1]));
    }
}

/// Reads a port number from its configuration text, as a decimal number
/// with an optional leading `+`; `None` when the text names no port.
pub fn parse_port(text: &str) -> (r: Option<u16>)
    ensures
        r == (if is_port_text(text@) {
            Some(port_value(text@) as u16)
        } else {
            None::<u16>
        }),
{
    let ghost s = text@;
    if !text.is_ascii() {
        proof {
            if is_port_text(s) {
                let j = choose|j: int| 0 <= j < s.len() && !('\0' <= #[trigger] s[j] <= '\u{7f}');
                if s.len() > 0 && s[0] == '+' && j > 0 {
                    assert(port_digits(s)[j - 1] == s[j]);
                }
            }
        }
        return None;
    }
    let n = text.unicode_len();
    let start: usize = if n > 0 && char_at(text, 0) == '+' {
        1
    } else {
        0
    };
    let ghost d = port_digits(s);
    assert(d =~= s.subrange(start as int, n as int));
    if start == n {
        return None;
    }
    let mut v: u32 = 0;
    let mut i: usize = start;
    while i < n
        invariant
            n == s.len(),
            s == text@,
            text.is_ascii(),
            start <= i <= n,
            d == port_digits(s),
            d =~= s.subrange(start as int, n as int),
            forall|j: int| start <= j < i ==> is_digit(#[trigger] s[j]),
            v as int == decimal_value(s.subrange(start as int, i as int)),
            v <= 65535,
        decreases n - i,
    {
        let c = char_at(text, i);
        if c < '0' || c > '9' {
            assert(d[i - start] == c);
            assert(!is_digit(d[i - start]));
            return None;
        }
        let ghost prev = s.subrange(start as int, i as int);
        let ghost next = s.subrange(start as int, i + 1);
        assert(next.drop_last() =~= prev);
        assert(next.last() == c);
        v = v * 10 + (c as u32 - '0' as u32);
        i = i + 1;
        if v > 65535 {
            proof {
                if forall|j: int| 0 <= j < d.len() ==> is_digit(#[trigger] d[j]) {
                    assert(d.take(i - start) =~= next);
                    lemma_decimal_prefix(d, i - start);
                }
            }
            return None;
        }
    }
    assert(s.subrange(start as int, n as int) =~= d);
    assert forall|j: int| 0 <= j < d.len() implies is_digit(#[trigger] d[j]) by {
        assert(d[j] == s[j + start]);
    }
    Some(v as u16)
}

/// Why the server could not start or stopped serving.
#[derive(Debug)]
pub enum StartupError {
    /// No port was configured.
    MissingPort,
    /// The configured port text, which names no port.
    InvalidPort(String),
    /// The listener could not be bound.
    Bind,
    /// The server loop failed.
    Serve,
}

pub ghost enum StartupErrorView {
    MissingPort,
    InvalidPort(Seq<char>),
    Bind,
    Serve,
}

impl View for StartupError {
    type V = StartupErrorView;

    open spec fn view(&self) -> StartupErrorView {
        match self {
            StartupError::MissingPort => StartupErrorView::MissingPort,
            StartupError::InvalidPort(s) => StartupErrorView::InvalidPort(s@),
            StartupError::Bind => StartupErrorView::Bind,
            StartupError::Serve => StartupErrorView::Serve,
        }
    }
}

/// The diagnostic for a startup error. For a failed bind or server loop the
/// system's own error stands beside it as the cause.
pub open spec fn error_message(e: StartupErrorView) -> Seq<char> {
    match e {
        StartupErrorView::MissingPort => "PORT is not set"@,
        StartupErrorView::InvalidPort(s) => "PORT is not a port number: "@ + s,
        StartupErrorView::Bind => "error port already in use"@,
        StartupErrorView::Serve => "error while starting API server"@,
    }
}

impl StartupError {
    /// The diagnostic for this error: what went wrong, and for a malformed
    /// port the offending text.
    pub fn message(&self) -> (r: String)
        ensures
            r@ == error_message(self@),
    {
        match self {
            StartupError::MissingPort => "PORT is not set".to_owned(),
            StartupError::InvalidPort(s) => {
                let mut m = "PORT is not a port number: ".to_owned();
                m.append(s.as_str());
                m
            },
            StartupError::Bind => "error port already in use".to_owned(),
            StartupError::Serve => "error while starting API server".to_owned(),
        }
    }
}

pub open spec fn port_setting_view(var: Option<Seq<char>>) -> Result<u16, StartupErrorView> {
    match var {
        None => Err(StartupErrorView::MissingPort),
        Some(s) => if is_port_text(s) {
            Ok(port_value(s) as u16)
        } else {
            Err(StartupErrorView::InvalidPort(s))
        },
    }
}

pub open spec fn opt_view(var: Option<&str>) -> Option<Seq<char>> {
    match var {
        None => None,
        Some(s) => Some(s@),
    }
}

pub open spec fn setting_result_view(r: Result<u16, StartupError>) -> Result<u16, StartupErrorView> {
    match r {
        Ok(p) => Ok(p),
        Err(e) => Err(e@),
    }
}

/// The port to listen on, from the value of the `PORT` setting (`None` when
/// it is not set). There is no default: a missing or malformed value is an
/// error.
pub fn port_setting(var: Option<&str>) -> (r: Result<u16, StartupError>)
    ensures
        setting_result_view(r) == port_setting_view(opt_view(var)),
{
    match var {
        None => Err(StartupError::MissingPort),
        Some(s) => match parse_port(s) {
            Some(p) => Ok(p),
            None => Err(StartupError::InvalidPort(s.to_owned())),
        },
    }
}

/// The directory that assets are served from: `assets` inside the working
/// directory `cwd`.
pub fn assets_root(cwd: &str) -> (r: String)
    ensures
        r@ == cwd@ + "/assets"@,
{
    let mut r = cwd.to_owned();
    r.append("/assets");
    r
}

} // verus!
