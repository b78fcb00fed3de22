//! Resolution of identifiers and spans to the text that a report shows.

use vstd::prelude::*;
use crate::ident::DefinitionId;
use crate::ident::SourceSpan;

verus! {

/// The character that stands for a decimal digit.
pub open spec fn digit_char(d: int) -> char {
    if d == 0 {
        '0'
    } else if d == 1 {
        '1'
    } else if d == 2 {
        '2'
    } else if d == 3 {
        '3'
    } else if d == 4 {
        '4'
    } else if d == 5 {
        '5'
    } else if d == 6 {
        '6'
    } else if d == 7 {
        '7'
    } else if d == 8 {
        '8'
    } else {
        '9'
    }
}

/// The decimal numeral of `n`, without leading zeros.
pub open spec fn decimal(n: nat) -> Seq<char>
    decreases n,
{
    if n < 10 {
        seq![digit_char(n as int)]
    } else {
        decimal(n / 10).push(digit_char((n % 10) as int))
    }
}

/// The text of a location: the file, a colon and the line.
pub open spec fn location_text(span: SourceSpan) -> Seq<char> {
    span.file@ + seq![':'] + decimal(span.line as nat)
}

/// The name that a table of definitions gives to `id`: that of the first
/// entry made for it, and the empty name where there is none.
pub open spec fn lookup_name(table: Seq<(DefinitionId, String)>, id: DefinitionId) -> Seq<char>
    decreases table.len(),
{
    if table.len() == 0 {
        Seq::empty()
    } else if table[0].0 == id {
        table[0].1@
    } else {
        lookup_name(table.subrange(1, table.len() as int), id)
    }
}

/// Whether a table of definitions has an entry for `id`.
pub open spec fn has_entry(table: Seq<(DefinitionId, String)>, id: DefinitionId) -> bool {
    exists|i: int| 0 <= i < table.len() && (#[trigger] table[i]).0 == id
}

fn digit_text(d: u32) -> (text: &'static str)
    requires
        d < 10,
    ensures
        text@ == seq![digit_char(d as int)],
{
    let text = if d == 0 {
        proof { reveal_strlit("0"); }
        "0"
    } else if d == 1 {
        proof { reveal_strlit("1"); }
        "1"
    } else if d == 2 {
        proof { reveal_strlit("2"); }
        "2"
    } else if d == 3 {
        proof { reveal_strlit("3"); }
        "3"
    } else if d == 4 {
        proof { reveal_strlit("4"); }
        "4"
    } else if d == 5 {
        proof { reveal_strlit("5"); }
        "5"
    } else if d == 6 {
        proof { reveal_strlit("6"); }
        "6"
    } else if d == 7 {
        proof { reveal_strlit("7"); }
        "7"
    } else if d == 8 {
        proof { reveal_strlit("8"); }
        "8"
    } else {
        proof { reveal_strlit("9"); }
        "9"
    };
    assert(text@ =~= seq![digit_char(d as int)]);
    text
}

/// Writes a line number in decimal.
pub fn line_text(n: u32) -> (text: String)
    ensures
        text@ == decimal(n as nat),
    decreases n,
{
    if n < 10 {
        String::from_str(digit_text(n))
    } else {
        let mut text = line_text(n / 10);
        text.append(digit_text(n % 10));
        assert(text@ =~= decimal(n as nat));
        text
    }
}

/// The front-end's table of definitions: for each identifier that it has
/// handed out, the qualified name of the definition.
pub struct Resolver {
    pub names: Vec<(DefinitionId, String)>,
}

impl Resolver {
    /// The name under which `id` is reported.
    pub open spec fn name_of(&self, id: DefinitionId) -> Seq<char> {
        lookup_name(self.names@, id)
    }

    /// Whether the table has an entry for `id`.
    pub open spec fn knows(&self, id: DefinitionId) -> bool {
        has_entry(self.names@, id)
    }

    pub fn new() -> (resolver: Self)
        ensures
            resolver.names@ == Seq::<(DefinitionId, String)>::empty(),
    {
        Resolver { names: Vec::new() }
    }

    /// Tells whether the table has an entry for `id`.
    pub fn contains(&self, id: DefinitionId) -> (known: bool)
        ensures
            known == self.knows(id),
    {
        let mut i: usize = 0;
        while i < self.names.len()
            invariant
                i <= self.names.len(),
                forall|j: int| 0 <= j < i ==> (#[trigger] self.names@[j]).0 != id,
            decreases self.names.len() - i,
        {
            if self.names[i].0 == id {
                return true;
            }
            i += 1;
        }
        false
    }

    /// Enters the name of a definition. The first name entered for an
    /// identifier stays: a later one for the same identifier is dropped.
    pub fn register(&mut self, id: DefinitionId, name: String)
        ensures
            final(self).names@ == if old(self).knows(id) {
                old(self).names@
            } else {
                old(self).names@.push((id, name))
            },
            final(self).name_of(id) == if old(self).knows(id) {
                old(self).name_of(id)
            } else {
                name@
            },
            forall|other: DefinitionId|
                other != id ==> final(self).name_of(other) == old(self).name_of(other)
                    && final(self).knows(other) == old(self).knows(other),
            final(self).knows(id),
    {
        if !self.contains(id) {
            proof {
                lemma_lookup_push(self.names@, (id, name), id);
                assert forall|other: DefinitionId| other != id implies lookup_name(
                    self.names@.push((id, name)),
                    other,
                ) == lookup_name(self.names@, other) && has_entry(self.names@.push((id, name)), other)
                    == has_entry(self.names@, other) by {
                    lemma_lookup_push(self.names@, (id, name), other);
                    lemma_has_entry_push(self.names@, (id, name), other);
                }
                lemma_has_entry_push(self.names@, (id, name), id);
            }
            self.names.push((id, name));
        }
    }
}

/// An entry added at the end of a table names its identifier where the table
/// had no name for it, and changes no other lookup.
pub proof fn lemma_lookup_push(
    table: Seq<(DefinitionId, String)>,
    entry: (DefinitionId, String),
    id: DefinitionId,
)
    ensures
        lookup_name(table.push(entry), id) == if has_entry(table, id) || entry.0 != id {
            lookup_name(table, id)
        } else {
            entry.1@
        },
    decreases table.len(),
{
    let grown = table.push(entry);
    if table.len() == 0 {
        assert(grown.subrange(1, grown.len() as int) =~= Seq::empty());
        assert(lookup_name(grown.subrange(1, grown.len() as int), id) == Seq::<char>::empty());
    } else {
        let rest = table.subrange(1, table.len() as int);
        assert(grown.subrange(1, grown.len() as int) =~= rest.push(entry));
        lemma_lookup_push(rest, entry, id);
        if table[0].0 == id {
            assert(has_entry(table, id));
        } else {
            if has_entry(table, id) {
                let i = choose|i: int| 0 <= i < table.len() && (#[trigger] table[i]).0 == id;
                assert(rest[i - 1] == table[i]);
                assert(has_entry(rest, id));
            }
            if has_entry(rest, id) {
                let i = choose|i: int| 0 <= i < rest.len() && (#[trigger] rest[i]).0 == id;
                assert(table[i + 1] == rest[i]);
                assert(has_entry(table, id));
            }
        }
    }
}

/// A table with one more entry knows the identifiers that it knew, and that
/// of the entry.
pub proof fn lemma_has_entry_push(
    table: Seq<(DefinitionId, String)>,
    entry: (DefinitionId, String),
    id: DefinitionId,
)
    ensures
        has_entry(table.push(entry), id) == (has_entry(table, id) || entry.0 == id),
{
    let grown = table.push(entry);
    if has_entry(table, id) {
        let i = choose|i: int| 0 <= i < table.len() && (#[trigger] table[i]).0 == id;
        assert(grown[i] == table[i]);
    }
    if entry.0 == id {
        assert(grown[table.len() as int] == entry);
    }
    if has_entry(grown, id) {
        let i = choose|i: int| 0 <= i < grown.len() && (#[trigger] grown[i]).0 == id;
        if i < table.len() {
            assert(table[i] == grown[i]);
        }
    }
}

/// Resolves an identifier to the qualified name of its definition.
pub fn get_node_name(resolver: &Resolver, id: DefinitionId) -> (name: String)
    ensures
        name@ == resolver.name_of(id),
{
    let mut i: usize = 0;
    assert(resolver.names@.subrange(0, resolver.names@.len() as int) =~= resolver.names@);
    while i < resolver.names.len()
        invariant
            i <= resolver.names.len(),
            lookup_name(resolver.names@, id) == lookup_name(
                resolver.names@.subrange(i as int, resolver.names@.len() as int),
                id,
            ),
        decreases resolver.names.len() - i,
    {
        let ghost tail = resolver.names@.subrange(i as int, resolver.names@.len() as int);
        assert(tail[0] == resolver.names@[i as int]);
        if resolver.names[i].0 == id {
            return resolver.names[i].1.clone();
        }
        assert(tail.subrange(1, tail.len() as int) =~= resolver.names@.subrange(
            i + 1,
            resolver.names@.len() as int,
        ));
        i += 1;
    }
    assert(resolver.names@.subrange(i as int, resolver.names@.len() as int).len() == 0);
    String::new()
}

/// Resolves a span to the text `file:line`.
pub fn get_file_and_line(span: &SourceSpan) -> (text: String)
    ensures
        text@ == location_text(*span),
{
    let mut text = span.file.clone();
    text.append(":");
    proof {
        reveal_strlit(":");
        assert(":"@ =~= seq![':']);
    }
    let digits = line_text(span.line);
    text.append(digits.as_str());
    text
}

} // verus!
