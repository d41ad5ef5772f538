//! The known console dialects, each a named triple of patterns.

use vstd::prelude::*;
use crate::parsers::{built_from, Parser, PatternError};

verus! {

/// A named console format.
#[derive(Debug, Clone, Copy, PartialEq, Eq, Structural)]
pub enum Dialect {
    Vanilla,
    Cobblemon,
    Mechanical,
    Atm,
    Rr3,
}

/// The three patterns of one dialect.
#[derive(Debug, Clone, Copy)]
pub struct DialectPatterns {
    pub join: &'static str,
    pub part: &'static str,
    pub message: &'static str,
}

pub const VANILLA_JOIN: &'static str = r"^\[.*\] \[Server thread/INFO\]: (.*) joined the game$";

pub const VANILLA_PART: &'static str = r"^\[.*\] \[Server thread/INFO\]: (.*) left the game$";

pub const VANILLA_MESSAGE: &'static str = r"^\[.*\] \[Server thread/INFO\]: <(.*)> (.*)$";

pub const COBBLEMON_JOIN: &'static str = r"^\[.*\] \[Server thread/INFO\]: (.*) joined the game$";

pub const COBBLEMON_PART: &'static str = r"^\[.*\] \[Server thread/INFO\]: (.*) left the game$";

pub const COBBLEMON_MESSAGE: &'static str = r"^\[.*\] \[Server thread/INFO\]: \[.*\] (.*) Â» (.*)$";

pub const MECHANICAL_JOIN: &'static str =
    r"\[.*\] \[Server thread/INFO\] \[minecraft/DedicatedServer\]: (.*) joined the game$";

pub const MECHANICAL_PART: &'static str =
    r"\[.*\] \[Server thread/INFO\] \[minecraft/DedicatedServer\]: (.*) left the game$";

pub const MECHANICAL_MESSAGE: &'static str =
    r"\[.*\] \[Server thread/INFO\] \[minecraft/DedicatedServer\]: \[.*\] <(.*)> (.*)$";

pub const ATM_JOIN: &'static str =
    r"\[.*\] \[Server thread/INFO\] \[minecraft/MinecraftServer\]: \[.*\] <(.*)> joined the game$";

pub const ATM_PART: &'static str =
    r"\[.*\] \[Server thread/INFO\] \[minecraft/MinecraftServer\]: \[.*\] <(.*)> left the game$";

pub const ATM_MESSAGE: &'static str =
    r"\[.*\] \[Server thread/INFO\] \[minecraft/MinecraftServer\]: <\[.*\] <(.*)>> (.*)$";

pub const RR3_JOIN: &'static str = r"\[.* INFO\]: (.*)\[.*\] logged in";

pub const RR3_PART: &'static str = r"\[.* INFO\]: (.*) left the game.$";

pub const RR3_MESSAGE: &'static str = r"\[.* INFO\]: \\u\{1b\}\[m<(.*)\\u\{1b\}\[m> (.*)$";

impl Dialect {
    /// The join pattern of this dialect.
    pub open spec fn join_pattern(self) -> Seq<char> {
        match self {
            Dialect::Vanilla => VANILLA_JOIN@,
            Dialect::Cobblemon => COBBLEMON_JOIN@,
            Dialect::Mechanical => MECHANICAL_JOIN@,
            Dialect::Atm => ATM_JOIN@,
            Dialect::Rr3 => RR3_JOIN@,
        }
    }

    /// The part pattern of this dialect.
    pub open spec fn part_pattern(self) -> Seq<char> {
        match self {
            Dialect::Vanilla => VANILLA_PART@,
            Dialect::Cobblemon => COBBLEMON_PART@,
            Dialect::Mechanical => MECHANICAL_PART@,
            Dialect::Atm => ATM_PART@,
            Dialect::Rr3 => RR3_PART@,
        }
    }

    /// The message pattern of this dialect.
    pub open spec fn message_pattern(self) -> Seq<char> {
        match self {
            Dialect::Vanilla => VANILLA_MESSAGE@,
            Dialect::Cobblemon => COBBLEMON_MESSAGE@,
            Dialect::Mechanical => MECHANICAL_MESSAGE@,
            Dialect::Atm => ATM_MESSAGE@,
            Dialect::Rr3 => RR3_MESSAGE@,
        }
    }

    /// The row of the pattern table for this dialect.
    pub fn patterns(self) -> (p: DialectPatterns)
        ensures
            p.join@ == self.join_pattern(),
            p.part@ == self.part_pattern(),
            p.message@ == self.message_pattern(),
    {
        match self {
            Dialect::Vanilla => DialectPatterns {
                join: VANILLA_JOIN,
                part: VANILLA_PART,
                message: VANILLA_MESSAGE,
            },
            Dialect::Cobblemon => DialectPatterns {
                join: COBBLEMON_JOIN,
                part: COBBLEMON_PART,
                message: COBBLEMON_MESSAGE,
            },
            Dialect::Mechanical => DialectPatterns {
                join: MECHANICAL_JOIN,
                part: MECHANICAL_PART,
                message: MECHANICAL_MESSAGE,
            },
            Dialect::Atm => DialectPatterns { join: ATM_JOIN, part: ATM_PART, message: ATM_MESSAGE },
            Dialect::Rr3 => DialectPatterns { join: RR3_JOIN, part: RR3_PART, message: RR3_MESSAGE },
        }
    }

    /// Whether the result of building a parser is what this dialect's
    /// patterns call for.
    pub open spec fn builds(self, r: Result<Parser, PatternError>) -> bool {
        built_from(r, self.join_pattern(), self.part_pattern(), self.message_pattern())
    }

    /// Compiles this dialect's patterns into a parser.
    pub fn parser(self) -> (r: Result<Parser, PatternError>)
        ensures
            self.builds(r),
    {
        let p = self.patterns();
        Parser::new(p.join, p.part, p.message)
    }
}

/// The parser for plain server consoles.
pub fn vanilla() -> (r: Result<Parser, PatternError>)
    ensures
        Dialect::Vanilla.builds(r),
{
    Dialect::Vanilla.parser()
}

/// The parser for Cobblemon consoles.
pub fn cobblemon() -> (r: Result<Parser, PatternError>)
    ensures
        Dialect::Cobblemon.builds(r),
{
    Dialect::Cobblemon.parser()
}

/// The parser for Mechanical Mastery consoles.
pub fn mechanical() -> (r: Result<Parser, PatternError>)
    ensures
        Dialect::Mechanical.builds(r),
{
    Dialect::Mechanical.parser()
}

/// The parser for All The Mods consoles.
pub fn atm() -> (r: Result<Parser, PatternError>)
    ensures
        Dialect::Atm.builds(r),
{
    Dialect::Atm.parser()
}

/// The parser for Resonant Rise 3 consoles.
pub fn rr3() -> (r: Result<Parser, PatternError>)
    ensures
        Dialect::Rr3.builds(r),
{
    Dialect::Rr3.parser()
}

} // verus!
