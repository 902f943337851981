//! K2 required notes per BFNAR 2016:10, chapter 18-19.
use vstd::prelude::*;
use crate::text::to_string;

verus! {

/// The notes of an annual report.
#[derive(Debug, Clone)]
pub struct Notes {
    pub items: Vec<Note>,
}

/// One note: its number, title and text.
#[derive(Debug, Clone)]
pub struct Note {
    pub number: i32,
    pub title: String,
    pub content: String,
}

impl View for Note {
    type V = (i32, Seq<char>, Seq<char>);

    open spec fn view(&self) -> (i32, Seq<char>, Seq<char>) {
        (self.number, self.title@, self.content@)
    }
}

/// Note 1, the accounting principles.
pub open spec fn principles_text() -> Seq<char> {
    "Årsredovisningen har upprättats i enlighet med årsredovisningslagen och Bokföringsnämndens allmänna råd BFNAR 2016:10 Årsredovisning i mindre företag (K2).\n\nFöretaget tillämpar K2-regelverket i sin helhet.\n\nIntäkter redovisas i den period de avser. Fordringar upptas till det belopp som efter individuell bedömning beräknas bli betalt.\n\nTillgångar och skulder värderas till anskaffningsvärde om inget annat anges."@
}

/// The notes that every K2 report has: accounting principles, average
/// number of employees, and pledged assets and contingent liabilities.
pub open spec fn required_notes_spec() -> Seq<(i32, Seq<char>, Seq<char>)> {
    seq![
        (1i32, "Redovisningsprinciper"@, principles_text()),
        (2i32, "Medelantal anställda"@, "Medelantalet anställda under räkenskapsåret har uppgått till 0."@),
        (3i32, "Ställda säkerheter och ansvarsförbindelser"@, "Ställda säkerheter: Inga\nAnsvarsförbindelser: Inga"@),
    ]
}

/// Build the required notes for K2 årsredovisning.
pub fn required_notes() -> (n: Notes)
    ensures
        n.items@.map_values(|x: Note| x@) == required_notes_spec(),
{
    let mut items: Vec<Note> = Vec::new();
    // Note 1: Redovisningsprinciper (Accounting principles) — always required
    items.push(
        Note {
            number: 1,
            title: to_string("Redovisningsprinciper"),
            content: to_string(
                "Årsredovisningen har upprättats i enlighet med årsredovisningslagen och Bokföringsnämndens allmänna råd BFNAR 2016:10 Årsredovisning i mindre företag (K2).\n\nFöretaget tillämpar K2-regelverket i sin helhet.\n\nIntäkter redovisas i den period de avser. Fordringar upptas till det belopp som efter individuell bedömning beräknas bli betalt.\n\nTillgångar och skulder värderas till anskaffningsvärde om inget annat anges.",
            ),
        },
    );
    // Note 2: Medelantal anställda (average employees) — always required for K2
    items.push(
        Note {
            number: 2,
            title: to_string("Medelantal anställda"),
            content: to_string("Medelantalet anställda under räkenskapsåret har uppgått till 0."),
        },
    );
    // Note 3: Ställda säkerheter och ansvarsförbindelser — always required
    items.push(
        Note {
            number: 3,
            title: to_string("Ställda säkerheter och ansvarsförbindelser"),
            content: to_string("Ställda säkerheter: Inga\nAnsvarsförbindelser: Inga"),
        },
    );
    assert(items@.map_values(|x: Note| x@) =~= required_notes_spec());
    Notes { items }
}

} // verus!
