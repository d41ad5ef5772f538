//! The parser registry: which dialect each known server speaks.

use vstd::prelude::*;
use crate::dialects::Dialect;
use crate::parsers::{Parser, PatternError};
use crate::text::same_text;

verus! {

/// One row of the registry: a server's display name and its dialect.
#[derive(Debug)]
pub struct Row {
    pub name: String,
    pub dialect: Dialect,
}

/// A table from server display names to dialects, with a dialect for every
/// name that is not in the table.
#[derive(Debug)]
pub struct Registry {
    rows: Vec<Row>,
    fallback: Dialect,
}

/// The dialect of the first row whose name is exactly `name`, or `fallback`
/// where no row has that name.
pub open spec fn lookup(rows: Seq<(Seq<char>, Dialect)>, fallback: Dialect, name: Seq<char>) -> Dialect
    decreases rows.len(),
{
    if rows.len() == 0 {
        fallback
    } else if rows.first().0 == name {
        rows.first().1
    } else {
        lookup(rows.drop_first(), fallback, name)
    }
}

/// The servers that do not speak the plain dialect.
pub open spec fn standard_rows() -> Seq<(Seq<char>, Dialect)> {
    seq![
        ("Resonant Rise 3"@, Dialect::Rr3),
        ("Cobblemon"@, Dialect::Cobblemon),
        ("Mechanical Mastery"@, Dialect::Mechanical),
        ("All The Mods - Volcanoblock"@, Dialect::Atm),
        ("All The Mods 9"@, Dialect::Atm),
    ]
}

/// The dialect that the standard registry gives to `name`.
pub open spec fn standard_dialect(name: Seq<char>) -> Dialect {
    lookup(standard_rows(), Dialect::Vanilla, name)
}

impl Registry {
    /// The rows of the table, first row first.
    pub closed spec fn rows(&self) -> Seq<(Seq<char>, Dialect)> {
        Seq::new(self.rows@.len(), |i: int| (self.rows@[i].name@, self.rows@[i].dialect))
    }

    /// The dialect of the names that are not in the table.
    pub closed spec fn fallback(&self) -> Dialect {
        self.fallback
    }

    /// The dialect this registry gives to `name`.
    pub open spec fn dialect_of(&self, name: Seq<char>) -> Dialect {
        lookup(self.rows(), self.fallback(), name)
    }

    /// The registry of the known servers; every other server speaks the plain
    /// dialect.
    pub fn standard() -> (r: Registry)
        ensures
            r.rows() == standard_rows(),
            r.fallback() == Dialect::Vanilla,
    {
        let mut rows: Vec<Row> = Vec::new();
        rows.push(Row { name: "Resonant Rise 3".to_owned(), dialect: Dialect::Rr3 });
        rows.push(Row { name: "Cobblemon".to_owned(), dialect: Dialect::Cobblemon });
        rows.push(Row { name: "Mechanical Mastery".to_owned(), dialect: Dialect::Mechanical });
        rows.push(Row { name: "All The Mods - Volcanoblock".to_owned(), dialect: Dialect::Atm });
        rows.push(Row { name: "All The Mods 9".to_owned(), dialect: Dialect::Atm });
        Registry { rows, fallback: Dialect::Vanilla }
    }

    /// The dialect of the server called `server_name`: that of its row, found
    /// by exact comparison of the name, or the fallback.
    pub fn dialect(&self, server_name: &str) -> (d: Dialect)
        ensures
            d == self.dialect_of(server_name@),
    {
        let mut i: usize = 0;
        assert(self.rows().skip(0) == self.rows());
        while i < self.rows.len()
            invariant
                i <= self.rows@.len(),
                self.dialect_of(server_name@) == lookup(
                    self.rows().skip(i as int),
                    self.fallback(),
                    server_name@,
                ),
            decreases self.rows@.len() - i,
        {
            let row = &self.rows[i];
            assert(self.rows().skip(i as int).drop_first() == self.rows().skip(i + 1));
            if same_text(row.name.as_str(), server_name) {
                return row.dialect;
            }
            i = i + 1;
        }
        self.fallback
    }

    /// A parser for the server called `server_name`, compiled from the
    /// patterns of its dialect.
    pub fn resolve(&self, server_name: &str) -> (r: Result<Parser, PatternError>)
        ensures
            self.dialect_of(server_name@).builds(r),
    {
        self.dialect(server_name).parser()
    }
}

/// Every configured server name has its own dialect in the standard
/// registry, and every other name has the plain dialect.
pub proof fn lemma_standard_dialects(name: Seq<char>)
    ensures
        name == "Resonant Rise 3"@ ==> standard_dialect(name) == Dialect::Rr3,
        name == "Cobblemon"@ ==> standard_dialect(name) == Dialect::Cobblemon,
        name == "Mechanical Mastery"@ ==> standard_dialect(name) == Dialect::Mechanical,
        name == "All The Mods - Volcanoblock"@ ==> standard_dialect(name) == Dialect::Atm,
        name == "All The Mods 9"@ ==> standard_dialect(name) == Dialect::Atm,
        name != "Resonant Rise 3"@ && name != "Cobblemon"@ && name != "Mechanical Mastery"@ && name
            != "All The Mods - Volcanoblock"@ && name != "All The Mods 9"@ ==> standard_dialect(name)
            == Dialect::Vanilla,
{
    reveal_strlit("Resonant Rise 3");
    reveal_strlit("Cobblemon");
    reveal_strlit("Mechanical Mastery");
    reveal_strlit("All The Mods - Volcanoblock");
    reveal_strlit("All The Mods 9");
    assert("Resonant Rise 3"@.len() == 15);
    assert("Cobblemon"@.len() == 9);
    assert("Mechanical Mastery"@.len() == 18);
    assert("All The Mods - Volcanoblock"@.len() == 27);
    assert("All The Mods 9"@.len() == 14);
    let rows = standard_rows();
    let r1 = rows.drop_first();
    let r2 = r1.drop_first();
    let r3 = r2.drop_first();
    let r4 = r3.drop_first();
    let r5 = r4.drop_first();
    assert(r1.first() == rows[1] && r2.first() == rows[2] && r3.first() == rows[3] && r4.first()
        == rows[4] && r5.len() == 0);
    assert(lookup(r5, Dialect::Vanilla, name) == Dialect::Vanilla);
    assert(lookup(r4, Dialect::Vanilla, name) == if name == rows[4].0 {
        Dialect::Atm
    } else {
        Dialect::Vanilla
    });
    assert(lookup(r3, Dialect::Vanilla, name) == if name == rows[3].0 {
        Dialect::Atm
    } else {
        lookup(r4, Dialect::Vanilla, name)
    });
    assert(lookup(r2, Dialect::Vanilla, name) == if name == rows[2].0 {
        Dialect::Mechanical
    } else {
        lookup(r3, Dialect::Vanilla, name)
    });
    assert(lookup(r1, Dialect::Vanilla, name) == if name == rows[1].0 {
        Dialect::Cobblemon
    } else {
        lookup(r2, Dialect::Vanilla, name)
    });
    assert(lookup(rows, Dialect::Vanilla, name) == if name == rows[0].0 {
        Dialect::Rr3
    } else {
        lookup(r1, Dialect::Vanilla, name)
    });
}

} // verus!
