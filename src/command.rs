use vstd::prelude::*;
use vstd::string::*;

verus! {

/// Number of relay channels on the board.
pub const RELAY_COUNT: u8 = 8;

/// One request for the controller executable, with its own parameters.
///
/// `state` and `target` are handed to the controller verbatim: their meaning
/// belongs to it. `seconds` is a duration in plain decimal text.
pub enum RelayOperation {
    ListPorts,
    Status { target: String },
    SetRelay { relay: u8, state: String, seconds: Option<String> },
    SetAll { state: String, seconds: Option<String> },
}

pub open spec fn is_digit(c: char) -> bool {
    '0' <= c && c <= '9'
}

/// Decimal digits with at most one `.` between them.
pub open spec fn is_unsigned_decimal(u: Seq<char>) -> bool {
    &&& u.len() > 0
    &&& forall|i: int|
        0 <= i < u.len() ==> is_digit(#[trigger] u[i]) || (u[i] == '.' && 0 < i < u.len() - 1)
    &&& forall|i: int, j: int|
        #![trigger u[i], u[j]]
        0 <= i < j < u.len() && u[i] == '.' ==> u[j] != '.'
}

/// Plain decimal form: an optional `-`, digits, and an optional fraction.
pub open spec fn is_decimal_text(s: Seq<char>) -> bool {
    if s.len() > 0 && s[0] == '-' {
        is_unsigned_decimal(s.drop_first())
    } else {
        is_unsigned_decimal(s)
    }
}

pub open spec fn seconds_ok(seconds: Option<String>) -> bool {
    match seconds {
        Some(s) => is_decimal_text(s@),
        None => true,
    }
}

impl RelayOperation {
    /// The relay index is in range and any duration is well formed.
    pub open spec fn wf(&self) -> bool {
        match self {
            RelayOperation::SetRelay { relay, seconds, .. } => 1 <= *relay <= RELAY_COUNT
                && seconds_ok(*seconds),
            RelayOperation::SetAll { seconds, .. } => seconds_ok(*seconds),
            _ => true,
        }
    }
}

pub open spec fn digit_char(d: nat) -> char {
    if d == 0 {
        '0'
    } else if d == 1 {
        '1'
    } else if d == 2 {
        '2'
    } else if d == 3 {
        '3'
    } else if d == 4 {
        '4'
    } else if d == 5 {
        '5'
    } else if d == 6 {
        '6'
    } else if d == 7 {
        '7'
    } else if d == 8 {
        '8'
    } else {
        '9'
    }
}

/// The plain decimal form of a natural number, without sign or separators.
pub open spec fn decimal(n: nat) -> Seq<char>
    decreases n,
{
    if n < 10 {
        seq![digit_char(n)]
    } else {
        decimal(n / 10).push(digit_char(n % 10))
    }
}

pub open spec fn port_prefix(port: Option<Seq<char>>) -> Seq<Seq<char>> {
    match port {
        Some(p) => seq!["--port"@, p],
        None => seq![],
    }
}

pub open spec fn seconds_suffix(seconds: Option<Seq<char>>) -> Seq<Seq<char>> {
    match seconds {
        Some(s) => seq!["--seconds"@, s],
        None => seq![],
    }
}

pub open spec fn opt_view(o: Option<String>) -> Option<Seq<char>> {
    match o {
        Some(s) => Some(s@),
        None => None,
    }
}

/// The controller's words for an operation, before any port selection.
pub open spec fn operation_words(op: RelayOperation) -> Seq<Seq<char>> {
    match op {
        RelayOperation::ListPorts => seq!["list-ports"@, "--json"@],
        RelayOperation::Status { target } => seq!["status"@, target@],
        RelayOperation::SetRelay { relay, state, seconds } => seq![
            "relay"@,
            decimal(relay as nat),
            state@,
        ] + seconds_suffix(opt_view(seconds)),
        RelayOperation::SetAll { state, seconds } => seq!["all"@, state@] + seconds_suffix(
            opt_view(seconds),
        ),
    }
}

/// The full argument list: a `--port` pair when a port is given, then the
/// operation's words.
pub open spec fn command_line(op: RelayOperation, port: Option<Seq<char>>) -> Seq<Seq<char>> {
    port_prefix(port) + operation_words(op)
}

pub open spec fn strings_view(v: Seq<String>) -> Seq<Seq<char>> {
    v.map_values(|s: String| s@)
}

/// The text of a relay index 1 to 8.
fn relay_index_text(relay: u8) -> (r: String)
    requires
        1 <= relay <= RELAY_COUNT,
    ensures
        r@ == decimal(relay as nat),
{
    let r = if relay == 1 {
        String::from_str("1")
    } else if relay == 2 {
        String::from_str("2")
    } else if relay == 3 {
        String::from_str("3")
    } else if relay == 4 {
        String::from_str("4")
    } else if relay == 5 {
        String::from_str("5")
    } else if relay == 6 {
        String::from_str("6")
    } else if relay == 7 {
        String::from_str("7")
    } else {
        String::from_str("8")
    };
    proof {
        reveal_strlit("1");
        reveal_strlit("2");
        reveal_strlit("3");
        reveal_strlit("4");
        reveal_strlit("5");
        reveal_strlit("6");
        reveal_strlit("7");
        reveal_strlit("8");
        assert(r@ =~= decimal(relay as nat));
    }
    r
}

/// Whether `s` is a duration in plain decimal form.
pub fn is_decimal(s: &str) -> (r: bool)
    ensures
        r == is_decimal_text(s@),
{
    let n = s.unicode_len();
    let mut start: usize = 0;
    if n > 0 && s.get_char(0) == '-' {
        start = 1;
    }
    let ghost u = s@.subrange(start as int, n as int);
    assert(is_decimal_text(s@) == is_unsigned_decimal(u)) by {
        if start == 1 {
            assert(u =~= s@.drop_first());
        } else {
            assert(u =~= s@);
        }
    }
    if start >= n {
        return false;
    }
    let mut seen_dot = false;
    let mut i: usize = start;
    while i < n
        invariant
            start <= i <= n,
            n == s@.len(),
            u == s@.subrange(start as int, n as int),
            is_decimal_text(s@) == is_unsigned_decimal(u),
            start < n,
            forall|k: int|
                0 <= k < i - start ==> is_digit(#[trigger] u[k]) || (u[k] == '.' && 0 < k < u.len()
                    - 1),
            forall|k: int, j: int|
                #![trigger u[k], u[j]]
                0 <= k < j < i - start && u[k] == '.' ==> u[j] != '.',
            seen_dot <==> exists|k: int| 0 <= k < i - start && #[trigger] u[k] == '.',
        decreases n - i,
    {
        let c = s.get_char(i);
        assert(c == u[i - start]);
        if c == '.' {
            if seen_dot || i == start || i + 1 == n {
                proof {
                    let d = i - start;
                    assert(u[d] == '.');
                    if seen_dot {
                        let k = choose|k: int| 0 <= k < i - start && #[trigger] u[k] == '.';
                        assert(u[k] == '.' && u[d] == '.');
                    } else {
                        assert(!(is_digit(u[d]) || (u[d] == '.' && 0 < d < u.len() - 1)));
                    }
                    assert(!is_unsigned_decimal(u));
                }
                return false;
            }
            seen_dot = true;
        } else if !('0' <= c && c <= '9') {
            assert(!(is_digit(u[i - start]) || u[i - start] == '.'));
            assert(!is_unsigned_decimal(u));
            return false;
        }
        i = i + 1;
    }
    true
}

/// Appends the `--seconds` pair when a duration is given.
fn push_seconds(args: &mut Vec<String>, seconds: Option<String>)
    ensures
        strings_view(final(args)@) == strings_view(old(args)@) + seconds_suffix(opt_view(seconds)),
{
    let ghost before = strings_view(args@);
    if let Some(s) = seconds {
        args.push(String::from_str("--seconds"));
        args.push(s);
    }
    assert(strings_view(args@) =~= before + seconds_suffix(opt_view(seconds)));
}

/// The argument list that asks the controller for `op`, on `port` if one is
/// given.
pub fn build_args(op: RelayOperation, port: Option<String>) -> (r: Vec<String>)
    requires
        op.wf(),
    ensures
        strings_view(r@) == command_line(op, opt_view(port)),
{
    let ghost gop = op;
    let ghost gport = opt_view(port);
    let mut args: Vec<String> = Vec::new();
    if let Some(p) = port {
        args.push(String::from_str("--port"));
        args.push(p);
    }
    assert(strings_view(args@) =~= port_prefix(gport));
    match op {
        RelayOperation::ListPorts => {
            args.push(String::from_str("list-ports"));
            args.push(String::from_str("--json"));
        },
        RelayOperation::Status { target } => {
            args.push(String::from_str("status"));
            args.push(target);
        },
        RelayOperation::SetRelay { relay, state, seconds } => {
            args.push(String::from_str("relay"));
            args.push(relay_index_text(relay));
            args.push(state);
            push_seconds(&mut args, seconds);
        },
        RelayOperation::SetAll { state, seconds } => {
            args.push(String::from_str("all"));
            args.push(state);
            push_seconds(&mut args, seconds);
        },
    }
    assert(strings_view(args@) =~= command_line(gop, gport));
    args
}

} // verus!
