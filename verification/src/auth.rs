//! Authentication and pairing: pairing codes, the allowed clients and the
//! daemon's configuration.

use vstd::prelude::*;
use vstd::string::*;
use rand::Rng;
use crate::text::str_equal;

verus! {

/// The decimal digit `d` as a character.
pub open spec fn digit_char(d: nat) -> char {
    if d == 0 {
        '0'
    } else if d == 1 {
        '1'
    } else if d == 2 {
        '2'
    } else if d == 3 {
        '3'
    } else if d == 4 {
        '4'
    } else if d == 5 {
        '5'
    } else if d == 6 {
        '6'
    } else if d == 7 {
        '7'
    } else if d == 8 {
        '8'
    } else {
        '9'
    }
}

/// The last `width` decimal digits of `n`, padded with leading zeros.
pub open spec fn padded_decimal(n: nat, width: nat) -> Seq<char>
    decreases width,
{
    if width == 0 {
        Seq::empty()
    } else {
        padded_decimal(n / 10, (width - 1) as nat).push(digit_char(n % 10))
    }
}

/// Whether `c` is one of the ASCII digits.
pub open spec fn is_ascii_digit(c: char) -> bool {
    '0' <= c <= '9'
}

/// Whether `s` has the shape of a pairing code: six ASCII digits.
pub open spec fn is_pairing_code_text(s: Seq<char>) -> bool {
    s.len() == 6 && forall|i: int| 0 <= i < 6 ==> is_ascii_digit(#[trigger] s[i])
}

/// Expiration time of a code issued at `now` for `secs` seconds; a time past
/// the largest representable one is held at it.
pub open spec fn expiry(now: u64, secs: u64) -> u64 {
    if now + secs <= u64::MAX {
        (now + secs) as u64
    } else {
        u64::MAX
    }
}

/// Pairing code for client authentication.
#[derive(Debug, Clone)]
pub struct PairingCode {
    /// The code string (6 digits)
    pub code: String,
    /// Expiration timestamp (Unix epoch seconds)
    pub expires_at: u64,
    /// Associated client ID
    pub client_id: Option<String>,
}

impl PairingCode {
    /// Whether the code is still valid at time `now`.
    pub open spec fn live_at(self, now: u64) -> bool {
        now <= self.expires_at
    }

    /// Whether the code accepts `code` at time `now`.
    pub open spec fn accepts(self, code: Seq<char>, now: u64) -> bool {
        self.code@ == code && self.live_at(now)
    }

    /// The code numbered `number`, issued at `now` and valid for `expires_in_secs`.
    pub fn issue(number: u32, now: u64, expires_in_secs: u64) -> (pc: PairingCode)
        requires
            number < 1_000_000,
        ensures
            pc.code@ == padded_decimal(number as nat, 6),
            pc.expires_at == expiry(now, expires_in_secs),
            pc.client_id is None,
    {
        let code = six_digit_text(number);
        PairingCode { code, expires_at: now.saturating_add(expires_in_secs), client_id: None }
    }

    /// Generates a new pairing code: a random six-digit number, valid for
    /// `expires_in_secs` seconds from now.
    pub fn new(expires_in_secs: u64) -> (pc: PairingCode)
        ensures
            exists|n: nat| n < 1_000_000 && pc.code@ == padded_decimal(n, 6),
            exists|now: u64| pc.expires_at == expiry(now, expires_in_secs),
            pc.client_id is None,
    {
        let number = random_code_number();
        let now = unix_now();
        PairingCode::issue(number, now, expires_in_secs)
    }

    /// Whether the code has expired at time `now`.
    pub fn is_expired_at(&self, now: u64) -> (r: bool)
        ensures
            r == !self.live_at(now),
    {
        now > self.expires_at
    }

    /// Whether the code has expired.
    pub fn is_expired(&self) -> (r: bool)
        ensures
            exists|now: u64| r == !self.live_at(now),
    {
        self.is_expired_at(unix_now())
    }

    /// Whether `code` matches at time `now`.
    pub fn matches_at(&self, code: &str, now: u64) -> (r: bool)
        ensures
            r == self.accepts(code@, now),
    {
        str_equal(self.code.as_str(), code) && !self.is_expired_at(now)
    }

    /// Whether `code` matches and the code has not expired.
    pub fn matches(&self, code: &str) -> (r: bool)
        ensures
            exists|now: u64| r == self.accepts(code@, now),
            r ==> self.code@ == code@,
    {
        self.matches_at(code, unix_now())
    }
}

/// Appends the digit `d` to `s`.
fn push_digit(s: &mut String, d: u32)
    requires
        d < 10,
    ensures
        final(s)@ == old(s)@.push(digit_char(d as nat)),
{
    proof {
        reveal_strlit("0");
        reveal_strlit("1");
        reveal_strlit("2");
        reveal_strlit("3");
        reveal_strlit("4");
        reveal_strlit("5");
        reveal_strlit("6");
        reveal_strlit("7");
        reveal_strlit("8");
        reveal_strlit("9");
    }
    let ghost before = s@;
    if d == 0 {
        s.append("0");
    } else if d == 1 {
        s.append("1");
    } else if d == 2 {
        s.append("2");
    } else if d == 3 {
        s.append("3");
    } else if d == 4 {
        s.append("4");
    } else if d == 5 {
        s.append("5");
    } else if d == 6 {
        s.append("6");
    } else if d == 7 {
        s.append("7");
    } else if d == 8 {
        s.append("8");
    } else {
        s.append("9");
    }
    assert(s@ =~= before.push(digit_char(d as nat)));
}

/// The six-digit, zero-padded decimal text of `n`.
fn six_digit_text(n: u32) -> (s: String)
    ensures
        s@ == padded_decimal(n as nat, 6),
{
    let n1 = n / 10;
    let n2 = n1 / 10;
    let n3 = n2 / 10;
    let n4 = n3 / 10;
    let n5 = n4 / 10;
    let mut s = String::new();
    push_digit(&mut s, n5 % 10);
    push_digit(&mut s, n4 % 10);
    push_digit(&mut s, n3 % 10);
    push_digit(&mut s, n2 % 10);
    push_digit(&mut s, n1 % 10);
    push_digit(&mut s, n % 10);
    proof {
        reveal_with_fuel(padded_decimal, 7);
        assert(s@ =~= padded_decimal(n as nat, 6));
    }
    s
}

/// The six-digit text of any number has the shape of a pairing code.
pub proof fn law_issued_code_is_six_digits(n: nat)
    ensures
        is_pairing_code_text(padded_decimal(n, 6)),
{
    lemma_padded_decimal_digits(n, 6);
}

/// `padded_decimal(n, w)` is `w` ASCII digits.
proof fn lemma_padded_decimal_digits(n: nat, w: nat)
    ensures
        padded_decimal(n, w).len() == w,
        forall|i: int| 0 <= i < w ==> is_ascii_digit(#[trigger] padded_decimal(n, w)[i]),
    decreases w,
{
    if w > 0 {
        lemma_padded_decimal_digits(n / 10, (w - 1) as nat);
    }
}

/// A code accepts its own text at every time from its issue until its
/// expiration, and rejects every text after its expiration.
pub proof fn law_code_valid_until_expiry(pc: PairingCode, number: nat, now: u64, secs: u64, t: u64, other: Seq<char>)
    requires
        pc.code@ == padded_decimal(number, 6),
        pc.expires_at == expiry(now, secs),
    ensures
        now <= t <= now + secs ==> pc.accepts(padded_decimal(number, 6), t),
        t > pc.expires_at ==> !pc.accepts(other, t),
{
}

/// The value of a decimal digit character.
pub open spec fn digit_value(c: char) -> int {
    c as int - '0' as int
}

/// The number a string of decimal digits reads as.
pub open spec fn decimal_value(s: Seq<char>) -> int
    decreases s.len(),
{
    if s.len() == 0 {
        0
    } else {
        decimal_value(s.drop_last()) * 10 + digit_value(s.last())
    }
}

/// Ten to the power `w`.
pub open spec fn pow10(w: nat) -> nat
    decreases w,
{
    if w == 0 {
        1
    } else {
        10 * pow10((w - 1) as nat)
    }
}

/// `padded_decimal(n, w)` reads as the last `w` decimal digits of `n`.
proof fn lemma_padded_decimal_value(n: nat, w: nat)
    ensures
        pow10(w) > 0,
        decimal_value(padded_decimal(n, w)) == n % pow10(w),
    decreases w,
{
    if w > 0 {
        let p = pow10((w - 1) as nat);
        lemma_padded_decimal_value(n / 10, (w - 1) as nat);
        let s = padded_decimal(n, w);
        assert(s.drop_last() =~= padded_decimal(n / 10, (w - 1) as nat));
        let d = n % 10;
        assert(digit_value(digit_char(d)) == d);
        vstd::arithmetic::div_mod::lemma_mod_breakdown(n as int, 10, p as int);
        assert(decimal_value(s) == (n / 10) % p * 10 + d);
        assert(10 * ((n as int / 10) % (p as int)) == (n as int / 10) % (p as int) * 10) by (nonlinear_arith);
    }
}

/// A pairing code is the decimal text of the number it was issued with:
/// its six digits read back as that number, so different numbers give
/// different codes.
pub proof fn law_pairing_code_reads_as_its_number(n: nat, m: nat)
    requires
        n < 1_000_000,
        m < 1_000_000,
    ensures
        decimal_value(padded_decimal(n, 6)) == n,
        n != m ==> padded_decimal(n, 6) != padded_decimal(m, 6),
{
    lemma_padded_decimal_value(n, 6);
    lemma_padded_decimal_value(m, 6);
    assert(pow10(6) == 1_000_000) by {
        reveal_with_fuel(pow10, 7);
    }
    vstd::arithmetic::div_mod::lemma_small_mod(n, 1_000_000);
    vstd::arithmetic::div_mod::lemma_small_mod(m, 1_000_000);
}

/// Validation of a pairing code: with no active code it is refused as such;
/// otherwise it passes exactly when it is the active code's text and the
/// code has not expired, and every other text is refused as invalid. A code
/// issued at `now` for `secs` seconds expires `secs` seconds later, or at
/// the last representable time if that lies beyond.
pub proof fn law_validation_outcomes(pc: PairingCode, code: Seq<char>, now: u64, t: u64, secs: u64)
    ensures
        validation(None, code, t) == Err::<(), AuthError>(AuthError::NoActiveCode),
        validation(Some(pc), code, t) == (if code == pc.code@ && t <= pc.expires_at {
            Ok::<(), AuthError>(())
        } else {
            Err::<(), AuthError>(AuthError::InvalidOrExpired)
        }),
        now + secs <= u64::MAX ==> expiry(now, secs) == now + secs,
        now + secs > u64::MAX ==> expiry(now, secs) == u64::MAX,
{
}

/// Errors of pairing-code validation.
#[derive(Debug, Clone, Copy, PartialEq, Eq, Structural)]
pub enum AuthError {
    /// A code is active but the one given differs or has expired.
    InvalidOrExpired,
    /// No pairing code is active.
    NoActiveCode,
}

/// The outcome of validating `code` at time `now` against the active code.
pub open spec fn validation(current: Option<PairingCode>, code: Seq<char>, now: u64) -> Result<(), AuthError> {
    match current {
        Some(pc) => if pc.accepts(code, now) {
            Ok(())
        } else {
            Err(AuthError::InvalidOrExpired)
        },
        None => Err(AuthError::NoActiveCode),
    }
}

/// Whether a client is allowed: an empty list allows every client.
pub open spec fn client_allowed(allowed: Seq<Seq<char>>, client: Seq<char>) -> bool {
    allowed.len() == 0 || allowed.contains(client)
}

/// Authentication manager.
pub struct AuthManager {
    /// Current pairing code
    current_code: Option<PairingCode>,
    /// API key of the coding service
    api_key: String,
    /// Allowed client IDs (empty = allow all)
    allowed_clients: Vec<String>,
}

impl AuthManager {
    /// The active pairing code, if any.
    pub closed spec fn current(self) -> Option<PairingCode> {
        self.current_code
    }

    /// The API key.
    pub closed spec fn key(self) -> Seq<char> {
        self.api_key@
    }

    /// The allowed client IDs, in the order they were added.
    pub closed spec fn allowed(self) -> Seq<Seq<char>> {
        self.allowed_clients@.map_values(|c: String| c@)
    }

    /// Creates a manager with no active code and no client restriction.
    pub fn new(api_key: String) -> (m: AuthManager)
        ensures
            m.current() is None,
            m.key() == api_key@,
            m.allowed() == Seq::<Seq<char>>::empty(),
    {
        let m = AuthManager { current_code: None, api_key, allowed_clients: Vec::new() };
        assert(m.allowed() =~= Seq::<Seq<char>>::empty());
        m
    }

    /// Generates a new pairing code, valid for `expires_in_secs` seconds,
    /// makes it the active one and returns its text.
    pub fn generate_pairing_code(&mut self, expires_in_secs: u64) -> (code: String)
        ensures
            final(self).current() matches Some(pc) && pc.code@ == code@ && pc.client_id is None,
            exists|n: nat| n < 1_000_000 && code@ == padded_decimal(n, 6),
            exists|now: u64|
                final(self).current() matches Some(pc) && pc.expires_at == #[trigger] expiry(
                    now,
                    expires_in_secs,
                ),
            final(self).key() == old(self).key(),
            final(self).allowed() == old(self).allowed(),
    {
        let code = PairingCode::new(expires_in_secs);
        let code_str = code.code.clone();
        self.current_code = Some(code);
        code_str
    }

    /// Validates a pairing code at time `now`.
    pub fn validate_pairing_code_at(&self, code: &str, now: u64) -> (r: Result<(), AuthError>)
        ensures
            r == validation(self.current(), code@, now),
    {
        match &self.current_code {
            Some(pc) => if pc.matches_at(code, now) {
                Ok(())
            } else {
                Err(AuthError::InvalidOrExpired)
            },
            None => Err(AuthError::NoActiveCode),
        }
    }

    /// Validates a pairing code against the active one, now.
    pub fn validate_pairing_code(&self, code: &str) -> (r: Result<(), AuthError>)
        ensures
            exists|now: u64| r == validation(self.current(), code@, now),
            self.current() is None ==> r == Err::<(), AuthError>(AuthError::NoActiveCode),
    {
        self.validate_pairing_code_at(code, unix_now())
    }

    /// The API key.
    pub fn api_key(&self) -> (k: &str)
        ensures
            k@ == self.key(),
    {
        self.api_key.as_str()
    }

    /// Adds an allowed client.
    pub fn add_allowed_client(&mut self, client_id: String)
        ensures
            final(self).allowed() == old(self).allowed().push(client_id@),
            final(self).current() == old(self).current(),
            final(self).key() == old(self).key(),
    {
        let ghost before = self.allowed();
        let ghost id = client_id@;
        self.allowed_clients.push(client_id);
        assert(self.allowed() =~= before.push(id));
    }

    /// Whether a client is allowed.
    pub fn is_client_allowed(&self, client_id: &str) -> (r: bool)
        ensures
            r == client_allowed(self.allowed(), client_id@),
    {
        let n = self.allowed_clients.len();
        if n == 0 {
            return true;
        }
        let mut i: usize = 0;
        while i < n
            invariant
                n == self.allowed_clients@.len(),
                i <= n,
                forall|j: int| 0 <= j < i ==> self.allowed()[j] != client_id@,
            decreases n - i,
        {
            if str_equal(self.allowed_clients[i].as_str(), client_id) {
                assert(self.allowed()[i as int] == client_id@);
                return true;
            }
            i = i + 1;
        }
        false
    }

    /// Clears the active pairing code.
    pub fn clear_pairing_code(&mut self)
        ensures
            final(self).current() is None,
            final(self).key() == old(self).key(),
            final(self).allowed() == old(self).allowed(),
    {
        self.current_code = None;
    }
}

/// A freshly generated code is accepted until it expires; after expiry, and
/// once cleared, every code is refused.
pub proof fn law_active_code_validates_until_expiry(pc: PairingCode, now: u64, code: Seq<char>)
    ensures
        now <= pc.expires_at ==> validation(Some(pc), pc.code@, now) == Ok::<(), AuthError>(()),
        now > pc.expires_at ==> validation(Some(pc), code, now) == Err::<(), AuthError>(
            AuthError::InvalidOrExpired,
        ),
        validation(None, code, now) == Err::<(), AuthError>(AuthError::NoActiveCode),
{
}

/// The text returned by `generate_pairing_code` validates against the
/// manager that returned it at every time up to the code's expiration.
pub proof fn law_generated_code_validates(m: AuthManager, code: Seq<char>, now: u64)
    requires
        m.current() matches Some(pc) && pc.code@ == code && now <= pc.expires_at,
    ensures
        validation(m.current(), code, now) == Ok::<(), AuthError>(()),
{
}

/// A client added to the allowed list is allowed; while the list is empty,
/// every client is allowed.
pub proof fn law_added_client_is_allowed(allowed: Seq<Seq<char>>, id: Seq<char>, other: Seq<char>)
    ensures
        client_allowed(allowed.push(id), id),
        allowed.len() == 0 ==> client_allowed(allowed, other),
{
    assert(allowed.push(id)[allowed.len() as int] == id);
}

/// The allow-list is a membership test: an empty list lets every client in,
/// and a non-empty one lets in exactly the clients it holds, wherever they
/// stand in it. So adding a client to a non-empty list keeps every client it
/// allowed allowed, and disallows none that was allowed.
pub proof fn law_allow_list_is_membership(
    allowed: Seq<Seq<char>>,
    client: Seq<char>,
    added: Seq<char>,
)
    ensures
        allowed.len() == 0 ==> client_allowed(allowed, client),
        allowed.len() > 0 ==> (client_allowed(allowed, client) <==> exists|i: int|
            0 <= i < allowed.len() && allowed[i] == client),
        allowed.len() > 0 && client_allowed(allowed, client) ==> client_allowed(
            allowed.push(added),
            client,
        ),
        client_allowed(allowed.push(added), client) <==> (client == added || (allowed.len() > 0
            && client_allowed(allowed, client))),
{
    let l = allowed.push(added);
    assert(l[allowed.len() as int] == added);
    if allowed.len() > 0 && client_allowed(allowed, client) {
        let i = choose|i: int| 0 <= i < allowed.len() && allowed[i] == client;
        assert(l[i] == client);
    }
    if client_allowed(l, client) && client != added {
        let i = choose|i: int| 0 <= i < l.len() && l[i] == client;
        assert(i < allowed.len());
        assert(allowed[i] == client);
    }
}

/// Configuration for the daemon.
#[derive(Debug, Clone)]
pub struct DaemonConfig {
    /// API key of the coding service
    pub api_key: String,
    /// Signaling server URL
    pub signaling_url: String,
    /// STUN servers for WebRTC
    pub stun_servers: Vec<String>,
    /// Root directory for file operations
    pub root_path: String,
    /// Default confirmation mode
    pub confirm_mode: String,
    /// Listening port for local mode
    pub listen_port: u16,
}

impl DaemonConfig {
    /// The default configuration, with the given API key.
    pub fn with_api_key(api_key: String) -> (c: DaemonConfig)
        ensures
            c.api_key == api_key,
            c.signaling_url@ == "ws://localhost:8080/ws"@,
            c.stun_servers@.len() == 1,
            c.stun_servers@[0]@ == "stun.l.google.com:19302"@,
            c.root_path@ == "."@,
            c.confirm_mode@ == "auto"@,
            c.listen_port == 8081,
    {
        DaemonConfig {
            api_key,
            signaling_url: String::from_str("ws://localhost:8080/ws"),
            stun_servers: vec![String::from_str("stun.l.google.com:19302")],
            root_path: String::from_str("."),
            confirm_mode: String::from_str("auto"),
            listen_port: 8081,
        }
    }
}

/// Seconds since the Unix epoch by the system clock; a clock set before the
/// epoch reads as the epoch itself.
fn unix_now() -> u64 {
    match duration_since_unix_epoch(system_time_now()) {
        Some(d) => whole_secs(&d),
        None => 0,
    }
}

/// `std::time::SystemTime`, the system clock's reading.
#[verifier::external_type_specification]
#[verifier::external_body]
pub struct ExSystemTime(std::time::SystemTime);

/// Reads the system clock with `std::time::SystemTime::now`. Nothing is
/// claimed of the reading.
#[verifier::external_body]
fn system_time_now() -> std::time::SystemTime {
    std::time::SystemTime::now()
}

/// The time from the Unix epoch to `t`, by
/// `std::time::SystemTime::duration_since`; `None` when `t` lies before the
/// epoch. Left unsaid: how the duration depends on `t`, which is opaque here;
/// every reading reaching it comes from the clock.
#[verifier::external_body]
fn duration_since_unix_epoch(t: std::time::SystemTime) -> Option<std::time::Duration> {
    t.duration_since(std::time::UNIX_EPOCH).ok()
}

/// The whole seconds of a duration, by `std::time::Duration::as_secs`. Left
/// unsaid: how they depend on `d`, which is opaque here.
#[verifier::external_body]
fn whole_secs(d: &std::time::Duration) -> u64 {
    d.as_secs()
}

/// Draws a number uniformly from `0..1_000_000` with rand's
/// `Rng::random_range` on the thread-local generator `rand::rng()`. Claimed:
/// the number lies in that range, as rand's documentation states.
#[verifier::external_body]
fn random_code_number() -> (n: u32)
    ensures
        n < 1_000_000,
{
    rand::rng().random_range(0..1_000_000u32)
}

} // verus!
