//! The text of commands on the wire.
//!
//! Commands to the dongle and address commands are one-entry objects whose
//! key is the command's name in upper case, with a hyphen before each inner
//! capital. Radio commands are two-element lists of a tag and the blind's
//! identifier; the LED command's value is a list of colour, action and
//! duration.
use vstd::prelude::*;
use vstd::string::*;
use crate::model::{Command, DongleCommand, RtsCommand, LedColor, LedAction};
use crate::wire::{WireFormat, encoded, decoded};

verus! {

pub open spec fn is_upper(c: char) -> bool {
    'A' <= c && c <= 'Z'
}

pub open spec fn is_lower(c: char) -> bool {
    'a' <= c && c <= 'z'
}

/// The character in ASCII upper case.
pub open spec fn upper(c: char) -> char {
    if is_lower(c) {
        ((c as u32 - 32) as u8) as char
    } else {
        c
    }
}

/// What the character at `i` becomes: its upper case, after a hyphen where
/// it is an inner capital.
pub open spec fn kebab_piece(s: Seq<char>, i: int) -> Seq<char> {
    if i > 0 && is_upper(s[i]) {
        seq!['-', upper(s[i])]
    } else {
        seq![upper(s[i])]
    }
}

/// The first `n` characters of `s` in screaming kebab case.
pub open spec fn kebab_prefix(s: Seq<char>, n: int) -> Seq<char>
    decreases n,
{
    if n <= 0 {
        Seq::empty()
    } else {
        kebab_prefix(s, n - 1) + kebab_piece(s, n - 1)
    }
}

/// `s` in screaming kebab case: `FactoryReset` becomes `FACTORY-RESET`.
pub open spec fn kebab(s: Seq<char>) -> Seq<char> {
    kebab_prefix(s, s.len() as int)
}

/// The decimal digit for `d`, below ten.
pub open spec fn digit(d: nat) -> char {
    ((d + 48) as u8) as char
}

/// `n` in decimal, without leading zeros.
pub open spec fn decimal(n: nat) -> Seq<char>
    decreases n,
{
    if n < 10 {
        seq![digit(n)]
    } else {
        decimal(n / 10).push(digit(n % 10))
    }
}

/// `s` between double quotes.
pub open spec fn quoted(s: Seq<char>) -> Seq<char> {
    seq!['"'] + s + seq!['"']
}

/// A one-entry object.
pub open spec fn entry(key: Seq<char>, value: Seq<char>) -> Seq<char> {
    seq!['{'] + quoted(key) + seq![':'] + value + seq!['}']
}

/// Relies on String::push: appends one character.
#[verifier::external_body]
pub(crate) fn push_char(s: &mut String, c: char)
    ensures
        final(s)@ == old(s)@.push(c),
{
    s.push(c);
}

/// Writes `value` in screaming kebab case.
pub fn screaming_kebab_case(value: &str) -> (r: String)
    ensures
        r@ == kebab(value@),
{
    let mut out = String::new();
    let n = value.unicode_len();
    let mut i: usize = 0;
    while i < n
        invariant
            n == value@.len(),
            i <= n,
            out@ == kebab_prefix(value@, i as int),
        decreases n - i,
    {
        let ch = value.get_char(i);
        if i > 0 && 'A' <= ch && ch <= 'Z' {
            push_char(&mut out, '-');
        }
        let up = if 'a' <= ch && ch <= 'z' {
            ((ch as u32 - 32) as u8) as char
        } else {
            ch
        };
        push_char(&mut out, up);
        assert(out@ =~= kebab_prefix(value@, i + 1));
        i = i + 1;
    }
    out
}

/// Appends `n` in decimal.
pub fn push_decimal(s: &mut String, n: u16)
    ensures
        final(s)@ == old(s)@ + decimal(n as nat),
    decreases n,
{
    if n >= 10 {
        push_decimal(s, n / 10);
    }
    let d = (n % 10) as u8;
    push_char(s, (d + 48) as char);
    assert(final(s)@ =~= old(s)@ + decimal(n as nat)) by {
        if n < 10 {
            assert(old(s)@ + decimal(n as nat) =~= old(s)@.push(digit(n as nat)));
        } else {
            assert(old(s)@ + decimal(n as nat) =~= old(s)@ + decimal((n / 10) as nat) + seq![digit((n % 10) as nat)]);
        }
    }
}

/// The Rust name of a dongle command.
pub open spec fn dongle_name(c: DongleCommand) -> Seq<char> {
    match c {
        DongleCommand::Alive => "Alive"@,
        DongleCommand::Resethw => "Resethw"@,
        DongleCommand::FactoryReset => "FactoryReset"@,
        DongleCommand::Bcheck => "Bcheck"@,
        DongleCommand::Bstart => "Bstart"@,
    }
}

/// The Rust name of a radio command.
pub open spec fn rts_name(c: RtsCommand) -> Seq<char> {
    match c {
        RtsCommand::Up(_) => "Up"@,
        RtsCommand::Down(_) => "Down"@,
        RtsCommand::Prog(_) => "Prog"@,
        RtsCommand::My(_) => "My"@,
        RtsCommand::Stop(_) => "Stop"@,
        RtsCommand::ProgRt(_) => "ProgRt"@,
        RtsCommand::FourCycles(_) => "FourCycles"@,
    }
}

/// The blind a radio command is for.
pub open spec fn rts_blind(c: RtsCommand) -> u8 {
    match c {
        RtsCommand::Up(b) => b,
        RtsCommand::Down(b) => b,
        RtsCommand::Prog(b) => b,
        RtsCommand::My(b) => b,
        RtsCommand::Stop(b) => b,
        RtsCommand::ProgRt(b) => b,
        RtsCommand::FourCycles(b) => b,
    }
}

/// The wire tag of a radio command: its name in upper case, but for two
/// commands with tags of their own.
pub open spec fn rts_tag(c: RtsCommand) -> Seq<char> {
    match c {
        RtsCommand::ProgRt(_) => "PROG_RT"@,
        RtsCommand::FourCycles(_) => "4_CYCLES"@,
        _ => kebab(rts_name(c)),
    }
}

/// The text of a radio command: `["UP",7]`.
pub open spec fn rts_json(c: RtsCommand) -> Seq<char> {
    seq!['['] + quoted(rts_tag(c)) + seq![','] + decimal(rts_blind(c) as nat) + seq![']']
}

pub open spec fn color_name(c: LedColor) -> Seq<char> {
    match c {
        LedColor::Red => "Red"@,
        LedColor::Green => "Green"@,
    }
}

pub open spec fn action_name(a: LedAction) -> Seq<char> {
    match a {
        LedAction::Fix => "Fix"@,
        LedAction::Blink => "Blink"@,
    }
}

/// The Rust name of a command.
pub open spec fn command_name(c: Command) -> Seq<char> {
    match c {
        Command::CmdDongle(_) => "CmdDongle"@,
        Command::CmdRts(_) => "CmdRts"@,
        Command::GetAddress(_) => "GetAddress"@,
        Command::SetAddress => "SetAddress"@,
        Command::Led(_, _, _) => "Led"@,
        Command::ResetAddress(_) => "ResetAddress"@,
    }
}

/// The text of a command, or nothing for a command that cannot be written.
pub open spec fn command_json(c: Command) -> Option<Seq<char>> {
    let key = kebab(command_name(c));
    match c {
        Command::CmdDongle(d) => Some(entry(key, quoted(kebab(dongle_name(d))))),
        Command::CmdRts(r) => Some(entry(key, rts_json(r))),
        Command::GetAddress(id) => Some(entry(key, decimal(id as nat))),
        Command::SetAddress => None,
        Command::Led(col, act, d) => Some(
            entry(
                key,
                seq!['['] + quoted(kebab(color_name(col))) + seq![','] + quoted(
                    kebab(action_name(act)),
                ) + seq![','] + decimal(d as nat) + seq![']'],
            ),
        ),
        Command::ResetAddress(id) => Some(entry(key, decimal(id as nat))),
    }
}

/// The text of every command that can be written comes back unchanged when
/// it is encoded and then decoded in the passthrough format.
pub proof fn lemma_command_round_trip(c: Command)
    requires
        command_json(c) is Some,
    ensures
        encoded(WireFormat::CryptoOff, command_json(c)->0) is Some,
        decoded(WireFormat::CryptoOff, encoded(WireFormat::CryptoOff, command_json(c)->0)->0)
            == command_json(c),
{
}

/// Appends `t` between double quotes.
fn push_quoted(s: &mut String, t: &str)
    ensures
        final(s)@ == old(s)@ + quoted(t@),
{
    push_char(s, '"');
    s.append(t);
    push_char(s, '"');
    assert(final(s)@ =~= old(s)@ + quoted(t@));
}

impl DongleCommand {
    /// The command's Rust name.
    pub fn name(&self) -> (r: &'static str)
        ensures
            r@ == dongle_name(*self),
    {
        match self {
            DongleCommand::Alive => "Alive",
            DongleCommand::Resethw => "Resethw",
            DongleCommand::FactoryReset => "FactoryReset",
            DongleCommand::Bcheck => "Bcheck",
            DongleCommand::Bstart => "Bstart",
        }
    }
}

impl LedColor {
    pub fn name(&self) -> (r: &'static str)
        ensures
            r@ == color_name(*self),
    {
        match self {
            LedColor::Red => "Red",
            LedColor::Green => "Green",
        }
    }
}

impl LedAction {
    pub fn name(&self) -> (r: &'static str)
        ensures
            r@ == action_name(*self),
    {
        match self {
            LedAction::Fix => "Fix",
            LedAction::Blink => "Blink",
        }
    }
}

impl RtsCommand {
    /// The command's Rust name.
    pub fn name(&self) -> (r: &'static str)
        ensures
            r@ == rts_name(*self),
    {
        match self {
            RtsCommand::Up(_) => "Up",
            RtsCommand::Down(_) => "Down",
            RtsCommand::Prog(_) => "Prog",
            RtsCommand::My(_) => "My",
            RtsCommand::Stop(_) => "Stop",
            RtsCommand::ProgRt(_) => "ProgRt",
            RtsCommand::FourCycles(_) => "FourCycles",
        }
    }

    /// The blind the command is for.
    pub fn blind(&self) -> (r: u8)
        ensures
            r == rts_blind(*self),
    {
        match self {
            RtsCommand::Up(b) => *b,
            RtsCommand::Down(b) => *b,
            RtsCommand::Prog(b) => *b,
            RtsCommand::My(b) => *b,
            RtsCommand::Stop(b) => *b,
            RtsCommand::ProgRt(b) => *b,
            RtsCommand::FourCycles(b) => *b,
        }
    }

    /// The command's wire tag.
    pub fn tag(&self) -> (r: String)
        ensures
            r@ == rts_tag(*self),
    {
        match self {
            RtsCommand::ProgRt(_) => "PROG_RT".to_owned(),
            RtsCommand::FourCycles(_) => "4_CYCLES".to_owned(),
            _ => screaming_kebab_case(self.name()),
        }
    }

    /// The command's text: its tag and its blind as a two-element list.
    pub fn to_json(&self) -> (r: String)
        ensures
            r@ == rts_json(*self),
    {
        let mut out = String::new();
        push_char(&mut out, '[');
        let tag = self.tag();
        push_quoted(&mut out, tag.as_str());
        push_char(&mut out, ',');
        push_decimal(&mut out, self.blind() as u16);
        push_char(&mut out, ']');
        assert(out@ =~= rts_json(*self));
        out
    }
}

impl Command {
    /// The command's Rust name.
    pub fn name(&self) -> (r: &'static str)
        ensures
            r@ == command_name(*self),
    {
        match self {
            Command::CmdDongle(_) => "CmdDongle",
            Command::CmdRts(_) => "CmdRts",
            Command::GetAddress(_) => "GetAddress",
            Command::SetAddress => "SetAddress",
            Command::Led(_, _, _) => "Led",
            Command::ResetAddress(_) => "ResetAddress",
        }
    }

    /// The command's text; `None` for the command whose encoding is not
    /// known.
    pub fn to_json(&self) -> (r: Option<String>)
        ensures
            r is Some <==> command_json(*self) is Some,
            r is Some ==> r->0@ == command_json(*self)->0,
    {
        if let Command::SetAddress = self {
            return None;
        }
        let key = screaming_kebab_case(self.name());
        let mut out = String::new();
        push_char(&mut out, '{');
        push_quoted(&mut out, key.as_str());
        push_char(&mut out, ':');
        let ghost head = out@;
        match self {
            Command::CmdDongle(d) => {
                let v = screaming_kebab_case(d.name());
                push_quoted(&mut out, v.as_str());
            },
            Command::CmdRts(r) => {
                let v = r.to_json();
                out.append(v.as_str());
            },
            Command::GetAddress(id) => {
                push_decimal(&mut out, *id as u16);
            },
            Command::ResetAddress(id) => {
                push_decimal(&mut out, *id as u16);
            },
            Command::Led(col, act, d) => {
                push_char(&mut out, '[');
                let c = screaming_kebab_case(col.name());
                push_quoted(&mut out, c.as_str());
                push_char(&mut out, ',');
                let a = screaming_kebab_case(act.name());
                push_quoted(&mut out, a.as_str());
                push_char(&mut out, ',');
                push_decimal(&mut out, *d);
                push_char(&mut out, ']');
            },
            Command::SetAddress => {},
        }
        push_char(&mut out, '}');
        assert(out@ =~= command_json(*self)->0);
        Some(out)
    }
}

} // verus!
