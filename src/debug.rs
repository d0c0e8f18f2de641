use vstd::prelude::*;

verus! {

/// Relies on `chrono::Local::now` and `DelayedFormat`'s `Display`: the local
/// time now, as `YYYY-MM-DD hh:mm:ss.mmm`. It depends on the clock, so nothing
/// is stated of it.
#[verifier::external_body]
fn local_timestamp() -> (r: String) {
    chrono::Local::now().format("%Y-%m-%d %H:%M:%S.%3f").to_string()
}

/// Relies on `String::push`: appends one character.
#[verifier::external_body]
fn push_char(s: &mut String, c: char)
    ensures
        final(s)@ == old(s)@.push(c),
{
    s.push(c)
}

/// Relies on `format!` with `{:?}`: the value's `Debug` text, of which nothing
/// is known here.
#[verifier::external_body]
fn debug_text<T: std::fmt::Debug>(v: &T) -> (r: String) {
    format!("{v:?}")
}

/// Relies on `format!` with `{:#?}`: the value's pretty-printed `Debug` text,
/// of which nothing is known here.
#[verifier::external_body]
fn debug_text_alt<T: std::fmt::Debug>(v: &T) -> (r: String) {
    format!("{v:#?}")
}

#[verifier::external_type_specification]
#[verifier::external_body]
pub struct ExArguments<'a>(std::fmt::Arguments<'a>);

/// Relies on `std::fmt::format`: the text that `args` renders to, of which
/// nothing is known here.
#[verifier::external_body]
fn arguments_text(args: std::fmt::Arguments<'_>) -> (r: String) {
    std::fmt::format(args)
}

/// Severity of a log line.
#[derive(Debug, Clone, Copy, PartialEq, Eq, Structural)]
pub enum Level {
    Debug,
    Info,
    Warn,
    Error,
}

/// The colored tag that opens a line of the given level.
pub open spec fn level_tag(level: Level) -> Seq<char> {
    match level {
        Level::Debug => "\x1b[92;1m[DEBUG]\x1b[0m "@,
        Level::Info => "\x1b[96;1m[ INFO]\x1b[0m "@,
        Level::Warn => "\x1b[93;1m[ WARN]\x1b[0m "@,
        Level::Error => "\x1b[91;1m[ERROR]\x1b[0m "@,
    }
}

/// A log line under construction, built by chaining.
pub struct DebugBuf {
    buf: String,
}

impl View for DebugBuf {
    type V = Seq<char>;

    closed spec fn view(&self) -> Seq<char> {
        self.buf@
    }
}

impl DebugBuf {
    /// A line that starts with the local time now, then `": "`.
    pub fn new() -> (r: DebugBuf)
        ensures
            ": "@.is_suffix_of(r@),
    {
        let now = local_timestamp();
        let r = DebugBuf::with_stamp(now.as_str());
        proof {
            reveal_strlit(": ");
            assert(r@.subrange(r@.len() - 2, r@.len() as int) =~= ": "@);
        }
        r
    }

    /// A line that starts with `stamp`, then `": "`.
    pub fn with_stamp(stamp: &str) -> (r: DebugBuf)
        ensures
            r@ == stamp@ + ": "@,
    {
        let mut buf = String::from_str(stamp);
        buf.append(": ");
        DebugBuf { buf }
    }

    pub fn as_str(&self) -> (r: &str)
        ensures
            r@ == self@,
    {
        self.buf.as_str()
    }

    pub fn write_str(self, s: &str) -> (r: DebugBuf)
        ensures
            r@ == self@ + s@,
    {
        let mut buf = self.buf;
        buf.append(s);
        DebugBuf { buf }
    }

    pub fn write_char(self, c: char) -> (r: DebugBuf)
        ensures
            r@ == self@.push(c),
    {
        let mut buf = self.buf;
        push_char(&mut buf, c);
        DebugBuf { buf }
    }

    /// Appends the text that `args` renders to.
    pub fn write_fmt(self, args: std::fmt::Arguments<'_>) -> (r: DebugBuf)
        ensures
            self@.is_prefix_of(r@),
    {
        let s = arguments_text(args);
        let r = self.write_str(s.as_str());
        proof {
            assert(r@.subrange(0, self@.len() as int) =~= self@);
        }
        r
    }

    /// Appends an arrow, between a request and what became of it.
    pub fn to(self) -> (r: DebugBuf)
        ensures
            r@ == self@ + " -> "@,
    {
        self.write_str(" -> ")
    }

    pub fn not_found(self) -> (r: DebugBuf)
        ensures
            r@ == self@ + "404 NOT FOUND"@,
    {
        self.write_str("404 NOT FOUND")
    }

    /// Appends the `Display` text of `val`.
    pub fn display<T: std::fmt::Display>(self, val: T) -> (r: DebugBuf)
        ensures
            exists|s: String|
                vstd::string::to_string_from_display_ensures::<T>(&val, s) && r@ == self@ + s@,
    {
        let s = val.to_string();
        self.write_str(s.as_str())
    }

    /// Appends the `Debug` text of `val`.
    pub fn debug<T: std::fmt::Debug>(self, val: T) -> (r: DebugBuf)
        ensures
            self@.is_prefix_of(r@),
    {
        let s = debug_text(&val);
        let r = self.write_str(s.as_str());
        proof {
            assert(r@.subrange(0, self@.len() as int) =~= self@);
        }
        r
    }

    /// Appends the pretty-printed `Debug` text of `val`.
    pub fn debug_alt<T: std::fmt::Debug>(self, val: T) -> (r: DebugBuf)
        ensures
            self@.is_prefix_of(r@),
    {
        let s = debug_text_alt(&val);
        let r = self.write_str(s.as_str());
        proof {
            assert(r@.subrange(0, self@.len() as int) =~= self@);
        }
        r
    }

    /// Appends an inbound request as `METHOD "hostURI"`.
    pub fn req(self, method: &str, host: &str, uri: &str) -> (r: DebugBuf)
        ensures
            r@ == self@ + method@ + " \""@ + host@ + uri@ + "\""@,
    {
        self.write_str(method).write_str(" \"").write_str(host).write_str(uri).write_str("\"")
    }

    /// Appends an inbound request as `METHOD "scheme://hostURI"`.
    pub fn req_with_scheme(self, method: &str, host: &str, uri: &str, scheme: &str) -> (r:
        DebugBuf)
        ensures
            r@ == self@ + method@ + " \""@ + scheme@ + "://"@ + host@ + uri@ + "\""@,
    {
        self.write_str(method).write_str(" \"").write_str(scheme).write_str("://").write_str(
            host,
        ).write_str(uri).write_str("\"")
    }

    /// Appends an upstream request as `METHOD "url"`.
    pub fn upstream_req(self, method: &str, url: &str) -> (r: DebugBuf)
        ensures
            r@ == self@ + method@ + " \""@ + url@ + "\""@,
    {
        self.write_str(method).write_str(" \"").write_str(url).write_str("\"")
    }

    /// The finished line, opened by the tag of `level`.
    pub fn line(&self, level: Level) -> (r: String)
        ensures
            r@ == level_tag(level) + self@,
    {
        let mut out = match level {
            Level::Debug => String::from_str("\x1b[92;1m[DEBUG]\x1b[0m "),
            Level::Info => String::from_str("\x1b[96;1m[ INFO]\x1b[0m "),
            Level::Warn => String::from_str("\x1b[93;1m[ WARN]\x1b[0m "),
            Level::Error => String::from_str("\x1b[91;1m[ERROR]\x1b[0m "),
        };
        out.append(self.buf.as_str());
        out
    }
}

} // verus!
