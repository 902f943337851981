//! INK2 (Inkomstdeklaration 2): the BAS accounts summed by their SRU codes
//! into the fields of the form.
use vstd::prelude::*;
use crate::ledger::{net_of, within, AccountBalance};
use crate::money::{fits_i64, Money};
use crate::text::{compare_text, lemma_text_lt_trans, lemma_text_order, same_text, text_lt, to_string};

verus! {

/// The text that a table gives a key: the first entry with that key.
pub open spec fn lookup(t: Seq<(Seq<char>, Seq<char>)>, key: Seq<char>) -> Option<Seq<char>>
    decreases t.len(),
{
    if t.len() == 0 {
        None
    } else if t[0].0 == key {
        Some(t[0].1)
    } else {
        lookup(t.subrange(1, t.len() as int), key)
    }
}

pub open spec fn pair_views(t: Seq<(&str, &str)>) -> Seq<(Seq<char>, Seq<char>)> {
    t.map_values(|p: (&str, &str)| (p.0@, p.1@))
}

/// Looks `key` up in a table.
fn find_in(t: &Vec<(&'static str, &'static str)>, key: &str) -> (r: Option<&'static str>)
    ensures
        match r {
            Some(x) => lookup(pair_views(t@), key@) == Some(x@),
            None => lookup(pair_views(t@), key@) is None,
        },
{
    let ghost pv = pair_views(t@);
    let mut i: usize = 0;
    assert(pv.subrange(0, pv.len() as int) =~= pv);
    while i < t.len()
        invariant
            i <= t@.len(),
            pv == pair_views(t@),
            lookup(pv, key@) == lookup(pv.subrange(i as int, pv.len() as int), key@),
        decreases t.len() - i,
    {
        let ghost rest = pv.subrange(i as int, pv.len() as int);
        assert(rest[0] == (t@[i as int].0@, t@[i as int].1@));
        if same_text(t[i].0, key) {
            return Some(t[i].1);
        }
        assert(rest.subrange(1, rest.len() as int) =~= pv.subrange(i + 1, pv.len() as int));
        i += 1;
    }
    None
}

/// The labels of the INK2 fields by SRU code.
pub open spec fn sru_labels() -> Seq<(Seq<char>, Seq<char>)> {
    seq![
        ("7201"@, "Balanserade utgifter för utvecklingsarbeten"@),
        ("7202"@, "Koncessioner, patent, licenser, varumärken"@),
        ("7203"@, "Goodwill"@),
        ("7207"@, "Pågående arbeten, immateriella"@),
        ("7210"@, "Byggnader och mark"@),
        ("7214"@, "Maskiner och andra tekniska anläggningar"@),
        ("7215"@, "Inventarier, verktyg och installationer"@),
        ("7220"@, "Andelar i koncernföretag"@),
        ("7225"@, "Andra långfristiga fordringar"@),
        ("7230"@, "Varulager m.m."@),
        ("7234"@, "Pågående arbeten för annans räkning"@),
        ("7240"@, "Kundfordringar"@),
        ("7243"@, "Fordringar hos anställda"@),
        ("7248"@, "Skattefordringar"@),
        ("7249"@, "Förutbetalda kostnader och upplupna intäkter"@),
        ("7250"@, "Kortfristiga placeringar"@),
        ("7260"@, "Kassa och bank"@),
        ("7300"@, "Aktiekapital"@),
        ("7302"@, "Överkursfond"@),
        ("7303"@, "Reservfond"@),
        ("7310"@, "Balanserat resultat"@),
        ("7312"@, "Årets resultat"@),
        ("7320"@, "Periodiseringsfonder"@),
        ("7321"@, "Ackumulerade överavskrivningar"@),
        ("7340"@, "Skulder till kreditinstitut, lång"@),
        ("7349"@, "Övriga långfristiga skulder"@),
        ("7360"@, "Leverantörsskulder"@),
        ("7361"@, "Kortfristig del av långfristiga skulder"@),
        ("7362"@, "Skatteskulder"@),
        ("7363"@, "Moms och särskilda punktskatter"@),
        ("7365"@, "Personalens skatter, avgifter"@),
        ("7368"@, "Upplupna kostnader och förutbetalda intäkter"@),
        ("7369"@, "Övriga kortfristiga skulder"@),
        ("7410"@, "Nettoomsättning"@),
        ("7412"@, "Övriga rörelseintäkter"@),
        ("7420"@, "Råvaror och förnödenheter, handelsvaror"@),
        ("7430"@, "Övriga externa kostnader"@),
        ("7440"@, "Personalkostnader — löner"@),
        ("7441"@, "Personalkostnader — sociala kostnader"@),
        ("7450"@, "Av- och nedskrivningar"@),
        ("7510"@, "Ränteintäkter och liknande"@),
        ("7511"@, "Räntekostnader och liknande"@),
        ("7520"@, "Förändring periodiseringsfonder"@),
        ("7521"@, "Förändring överavskrivningar"@),
        ("7600"@, "Skatt på årets resultat"@)
    ]
}

fn label_table() -> (t: Vec<(&'static str, &'static str)>)
    ensures
        pair_views(t@) == sru_labels(),
{
    let t = vec![
        ("7201", "Balanserade utgifter för utvecklingsarbeten"),
        ("7202", "Koncessioner, patent, licenser, varumärken"),
        ("7203", "Goodwill"),
        ("7207", "Pågående arbeten, immateriella"),
        ("7210", "Byggnader och mark"),
        ("7214", "Maskiner och andra tekniska anläggningar"),
        ("7215", "Inventarier, verktyg och installationer"),
        ("7220", "Andelar i koncernföretag"),
        ("7225", "Andra långfristiga fordringar"),
        ("7230", "Varulager m.m."),
        ("7234", "Pågående arbeten för annans räkning"),
        ("7240", "Kundfordringar"),
        ("7243", "Fordringar hos anställda"),
        ("7248", "Skattefordringar"),
        ("7249", "Förutbetalda kostnader och upplupna intäkter"),
        ("7250", "Kortfristiga placeringar"),
        ("7260", "Kassa och bank"),
        ("7300", "Aktiekapital"),
        ("7302", "Överkursfond"),
        ("7303", "Reservfond"),
        ("7310", "Balanserat resultat"),
        ("7312", "Årets resultat"),
        ("7320", "Periodiseringsfonder"),
        ("7321", "Ackumulerade överavskrivningar"),
        ("7340", "Skulder till kreditinstitut, lång"),
        ("7349", "Övriga långfristiga skulder"),
        ("7360", "Leverantörsskulder"),
        ("7361", "Kortfristig del av långfristiga skulder"),
        ("7362", "Skatteskulder"),
        ("7363", "Moms och särskilda punktskatter"),
        ("7365", "Personalens skatter, avgifter"),
        ("7368", "Upplupna kostnader och förutbetalda intäkter"),
        ("7369", "Övriga kortfristiga skulder"),
        ("7410", "Nettoomsättning"),
        ("7412", "Övriga rörelseintäkter"),
        ("7420", "Råvaror och förnödenheter, handelsvaror"),
        ("7430", "Övriga externa kostnader"),
        ("7440", "Personalkostnader — löner"),
        ("7441", "Personalkostnader — sociala kostnader"),
        ("7450", "Av- och nedskrivningar"),
        ("7510", "Ränteintäkter och liknande"),
        ("7511", "Räntekostnader och liknande"),
        ("7520", "Förändring periodiseringsfonder"),
        ("7521", "Förändring överavskrivningar"),
        ("7600", "Skatt på årets resultat")
    ];
    assert(pair_views(t@) =~= sru_labels());
    t
}

/// The label of an SRU code; "Okänt fält" for a code the form lacks.
pub open spec fn sru_label_text(code: Seq<char>) -> Seq<char> {
    match lookup(sru_labels(), code) {
        Some(l) => l,
        None => "Okänt fält"@,
    }
}

/// SRU code labels for INK2 fields.
pub fn sru_label(code: &str) -> (r: &'static str)
    ensures
        r@ == sru_label_text(code@),
{
    let t = label_table();
    match find_in(&t, code) {
        Some(l) => l,
        None => "Okänt fält",
    }
}

/// The section of the form that each SRU code belongs to.
pub open spec fn sru_sections() -> Seq<(Seq<char>, Seq<char>)> {
    seq![
        ("7201"@, "Immateriella anläggningstillgångar"@),
        ("7202"@, "Immateriella anläggningstillgångar"@),
        ("7203"@, "Immateriella anläggningstillgångar"@),
        ("7207"@, "Immateriella anläggningstillgångar"@),
        ("7210"@, "Materiella anläggningstillgångar"@),
        ("7214"@, "Materiella anläggningstillgångar"@),
        ("7215"@, "Materiella anläggningstillgångar"@),
        ("7220"@, "Finansiella anläggningstillgångar"@),
        ("7225"@, "Finansiella anläggningstillgångar"@),
        ("7230"@, "Varulager"@),
        ("7234"@, "Varulager"@),
        ("7240"@, "Kortfristiga fordringar"@),
        ("7243"@, "Kortfristiga fordringar"@),
        ("7248"@, "Kortfristiga fordringar"@),
        ("7249"@, "Kortfristiga fordringar"@),
        ("7250"@, "Kassa, bank och placeringar"@),
        ("7260"@, "Kassa, bank och placeringar"@),
        ("7300"@, "Eget kapital"@),
        ("7302"@, "Eget kapital"@),
        ("7303"@, "Eget kapital"@),
        ("7310"@, "Eget kapital"@),
        ("7312"@, "Eget kapital"@),
        ("7320"@, "Obeskattade reserver"@),
        ("7321"@, "Obeskattade reserver"@),
        ("7340"@, "Långfristiga skulder"@),
        ("7349"@, "Långfristiga skulder"@),
        ("7360"@, "Kortfristiga skulder"@),
        ("7361"@, "Kortfristiga skulder"@),
        ("7362"@, "Kortfristiga skulder"@),
        ("7363"@, "Kortfristiga skulder"@),
        ("7365"@, "Kortfristiga skulder"@),
        ("7368"@, "Kortfristiga skulder"@),
        ("7369"@, "Kortfristiga skulder"@),
        ("7410"@, "Rörelseintäkter"@),
        ("7412"@, "Rörelseintäkter"@),
        ("7420"@, "Rörelsekostnader"@),
        ("7430"@, "Rörelsekostnader"@),
        ("7440"@, "Rörelsekostnader"@),
        ("7441"@, "Rörelsekostnader"@),
        ("7450"@, "Rörelsekostnader"@),
        ("7510"@, "Finansiella poster"@),
        ("7511"@, "Finansiella poster"@),
        ("7520"@, "Bokslutsdispositioner"@),
        ("7521"@, "Bokslutsdispositioner"@),
        ("7600"@, "Skatt"@)
    ]
}

fn section_table() -> (t: Vec<(&'static str, &'static str)>)
    ensures
        pair_views(t@) == sru_sections(),
{
    let t = vec![
        ("7201", "Immateriella anläggningstillgångar"),
        ("7202", "Immateriella anläggningstillgångar"),
        ("7203", "Immateriella anläggningstillgångar"),
        ("7207", "Immateriella anläggningstillgångar"),
        ("7210", "Materiella anläggningstillgångar"),
        ("7214", "Materiella anläggningstillgångar"),
        ("7215", "Materiella anläggningstillgångar"),
        ("7220", "Finansiella anläggningstillgångar"),
        ("7225", "Finansiella anläggningstillgångar"),
        ("7230", "Varulager"),
        ("7234", "Varulager"),
        ("7240", "Kortfristiga fordringar"),
        ("7243", "Kortfristiga fordringar"),
        ("7248", "Kortfristiga fordringar"),
        ("7249", "Kortfristiga fordringar"),
        ("7250", "Kassa, bank och placeringar"),
        ("7260", "Kassa, bank och placeringar"),
        ("7300", "Eget kapital"),
        ("7302", "Eget kapital"),
        ("7303", "Eget kapital"),
        ("7310", "Eget kapital"),
        ("7312", "Eget kapital"),
        ("7320", "Obeskattade reserver"),
        ("7321", "Obeskattade reserver"),
        ("7340", "Långfristiga skulder"),
        ("7349", "Långfristiga skulder"),
        ("7360", "Kortfristiga skulder"),
        ("7361", "Kortfristiga skulder"),
        ("7362", "Kortfristiga skulder"),
        ("7363", "Kortfristiga skulder"),
        ("7365", "Kortfristiga skulder"),
        ("7368", "Kortfristiga skulder"),
        ("7369", "Kortfristiga skulder"),
        ("7410", "Rörelseintäkter"),
        ("7412", "Rörelseintäkter"),
        ("7420", "Rörelsekostnader"),
        ("7430", "Rörelsekostnader"),
        ("7440", "Rörelsekostnader"),
        ("7441", "Rörelsekostnader"),
        ("7450", "Rörelsekostnader"),
        ("7510", "Finansiella poster"),
        ("7511", "Finansiella poster"),
        ("7520", "Bokslutsdispositioner"),
        ("7521", "Bokslutsdispositioner"),
        ("7600", "Skatt")
    ];
    assert(pair_views(t@) =~= sru_sections());
    t
}

/// The section of an SRU code; "Övrigt" for a code the form lacks.
pub open spec fn sru_section_text(code: Seq<char>) -> Seq<char> {
    match lookup(sru_sections(), code) {
        Some(l) => l,
        None => "Övrigt"@,
    }
}

/// Section ordering for INK2 display.
pub fn sru_section(code: &str) -> (r: &'static str)
    ensures
        r@ == sru_section_text(code@),
{
    let t = section_table();
    match find_in(&t, code) {
        Some(l) => l,
        None => "Övrigt",
    }
}

/// An account with the SRU code it reports under.
#[derive(Debug, Clone)]
pub struct AccountSru {
    pub number: i32,
    pub name: String,
    pub sru_code: Option<String>,
    pub account_type: String,
}

/// A field of the form: its SRU code, label, amount and the accounts that
/// make it up.
#[derive(Debug, Clone)]
pub struct Ink2Field {
    pub sru_code: String,
    pub label: String,
    pub amount: Money,
    /// Account numbers contributing to this field
    pub accounts: Vec<i32>,
}

impl View for Ink2Field {
    type V = (Seq<char>, Seq<char>, int, Seq<i32>);

    open spec fn view(&self) -> (Seq<char>, Seq<char>, int, Seq<i32>) {
        (self.sru_code@, self.label@, self.amount@, self.accounts@)
    }
}

pub open spec fn field_views(fs: Seq<Ink2Field>) -> Seq<(Seq<char>, Seq<char>, int, Seq<i32>)> {
    fs.map_values(|f: Ink2Field| f@)
}

/// The fields of one section of the form.
#[derive(Debug, Clone)]
pub struct Ink2Section {
    pub title: String,
    pub fields: Vec<Ink2Field>,
}

impl View for Ink2Section {
    type V = (Seq<char>, Seq<(Seq<char>, Seq<char>, int, Seq<i32>)>);

    open spec fn view(&self) -> (Seq<char>, Seq<(Seq<char>, Seq<char>, int, Seq<i32>)>) {
        (self.title@, field_views(self.fields@))
    }
}

pub open spec fn section_views(ss: Seq<Ink2Section>) -> Seq<
    (Seq<char>, Seq<(Seq<char>, Seq<char>, int, Seq<i32>)>),
> {
    ss.map_values(|s: Ink2Section| s@)
}

/// INK2 (Inkomstdeklaration 2) data structure.
/// Maps BAS accounts via SRU codes to INK2 form fields.
#[derive(Debug, Clone)]
pub struct Ink2Data {
    pub company_name: String,
    pub org_number: String,
    pub fiscal_year_start: String,
    pub fiscal_year_end: String,
    /// All SRU fields with their aggregated values
    pub fields: Vec<Ink2Field>,
    /// Grouped by section for display
    pub sections: Vec<Ink2Section>,
}

/// The first balance of account `n`.
pub open spec fn find_balance(bs: Seq<AccountBalance>, n: i32) -> Option<AccountBalance>
    decreases bs.len(),
{
    if bs.len() == 0 {
        None
    } else if bs[0].account_number == n {
        Some(bs[0])
    } else {
        find_balance(bs.subrange(1, bs.len() as int), n)
    }
}

fn find_account(bs: &[AccountBalance], n: i32) -> (r: Option<AccountBalance>)
    ensures
        r == find_balance(bs@, n),
{
    let mut i: usize = 0;
    assert(bs@.subrange(0, bs@.len() as int) =~= bs@);
    while i < bs.len()
        invariant
            i <= bs@.len(),
            find_balance(bs@, n) == find_balance(bs@.subrange(i as int, bs@.len() as int), n),
        decreases bs.len() - i,
    {
        let ghost rest = bs@.subrange(i as int, bs@.len() as int);
        assert(rest[0] == bs@[i as int]);
        if bs[i].account_number == n {
            return Some(bs[i]);
        }
        assert(rest.subrange(1, rest.len() as int) =~= bs@.subrange(i + 1, bs@.len() as int));
        i += 1;
    }
    None
}

/// What an account adds to its SRU field: its balance over the year (for the
/// balance sheet, classes 1-2) or over the entries that are not closing
/// entries (for the income statement), counted positive on the debit side
/// for assets and expenses and on the credit side for equity, liabilities
/// and revenue (classes 2 and 3).
pub open spec fn sru_amount(number: i32, all: Seq<AccountBalance>, operational: Seq<AccountBalance>) -> int {
    let bs = if number < 3000 {
        all
    } else {
        operational
    };
    match find_balance(bs, number) {
        Some(b) => if 2000 <= number < 4000 {
            -net_of(b)
        } else {
            net_of(b)
        },
        None => 0,
    }
}

/// The accounts that have an SRU code, as (code, amount, account number),
/// in the order of the accounts.
pub open spec fn sru_entries(
    accounts: Seq<AccountSru>,
    all: Seq<AccountBalance>,
    operational: Seq<AccountBalance>,
) -> Seq<(Seq<char>, int, i32)>
    decreases accounts.len(),
{
    if accounts.len() == 0 {
        Seq::empty()
    } else {
        let rest = sru_entries(accounts.drop_last(), all, operational);
        let a = accounts.last();
        match a.sru_code {
            Some(c) => rest.push((c@, sru_amount(a.number, all, operational), a.number)),
            None => rest,
        }
    }
}

/// The sum of the amounts of the entries with SRU code `c`.
pub open spec fn code_total(es: Seq<(Seq<char>, int, i32)>, c: Seq<char>) -> int
    decreases es.len(),
{
    if es.len() == 0 {
        0
    } else {
        code_total(es.drop_last(), c) + if es.last().0 == c {
            es.last().1
        } else {
            0
        }
    }
}

/// The account numbers of the entries with SRU code `c`, in order.
pub open spec fn code_accounts(es: Seq<(Seq<char>, int, i32)>, c: Seq<char>) -> Seq<i32>
    decreases es.len(),
{
    if es.len() == 0 {
        Seq::empty()
    } else {
        let rest = code_accounts(es.drop_last(), c);
        if es.last().0 == c {
            rest.push(es.last().2)
        } else {
            rest
        }
    }
}

/// The fields of the form for some entries: one per SRU code whose amounts
/// do not sum to zero, in the order of the codes (as `String` orders them),
/// each with its label, its sum and its accounts.
pub open spec fn fields_match(fs: Seq<(Seq<char>, Seq<char>, int, Seq<i32>)>, es: Seq<(Seq<char>, int, i32)>) -> bool {
    &&& forall|j: int, k: int| 0 <= j < k < fs.len() ==> text_lt(#[trigger] fs[j].0, #[trigger] fs[k].0)
    &&& forall|j: int|
        0 <= j < fs.len() ==> {
            &&& (#[trigger] fs[j]).2 == code_total(es, fs[j].0)
            &&& fs[j].2 != 0
            &&& fs[j].3 == code_accounts(es, fs[j].0)
            &&& fs[j].1 == sru_label_text(fs[j].0)
        }
    &&& forall|m: int|
        0 <= m < es.len() && code_total(es, (#[trigger] es[m]).0) != 0 ==> exists|j: int|
            0 <= j < fs.len() && (#[trigger] fs[j]).0 == es[m].0
}

/// The fields of `fs` that belong to the section titled `t`, in order.
pub open spec fn section_fields(fs: Seq<(Seq<char>, Seq<char>, int, Seq<i32>)>, t: Seq<char>) -> Seq<
    (Seq<char>, Seq<char>, int, Seq<i32>),
>
    decreases fs.len(),
{
    if fs.len() == 0 {
        Seq::empty()
    } else {
        let rest = section_fields(fs.drop_last(), t);
        if sru_section_text(fs.last().0) == t {
            rest.push(fs.last())
        } else {
            rest
        }
    }
}

/// The sections of the form for some fields: one per section that some
/// field belongs to, in the order of the titles, each with its fields in
/// their order.
pub open spec fn sections_match(
    ss: Seq<(Seq<char>, Seq<(Seq<char>, Seq<char>, int, Seq<i32>)>)>,
    fs: Seq<(Seq<char>, Seq<char>, int, Seq<i32>)>,
) -> bool {
    &&& forall|j: int, k: int| 0 <= j < k < ss.len() ==> text_lt(#[trigger] ss[j].0, #[trigger] ss[k].0)
    &&& forall|j: int|
        0 <= j < ss.len() ==> (#[trigger] ss[j]).1 == section_fields(fs, ss[j].0) && ss[j].1.len() > 0
    &&& forall|m: int| 0 <= m < fs.len() ==> has_title(ss, sru_section_text((#[trigger] fs[m]).0))
}

/// Whether some section has the title `t`.
pub open spec fn has_title(ss: Seq<(Seq<char>, Seq<(Seq<char>, Seq<char>, int, Seq<i32>)>)>, t: Seq<char>) -> bool {
    exists|j: int| 0 <= j < ss.len() && (#[trigger] ss[j]).0 == t
}

pub open spec fn entry_views(es: Seq<(String, i64, i32)>) -> Seq<(Seq<char>, int, i32)> {
    es.map_values(|e: (String, i64, i32)| (e.0@, e.1 as int, e.2))
}

pub open spec fn group_views(gs: Seq<(String, i128, Vec<i32>)>) -> Seq<(Seq<char>, int, Seq<i32>)> {
    gs.map_values(|g: (String, i128, Vec<i32>)| (g.0@, g.1 as int, g.2@))
}

/// The groups of some entries by SRU code: one per code, in the order of
/// the codes, with the sum and the accounts of the code.
pub open spec fn groups_match(gs: Seq<(Seq<char>, int, Seq<i32>)>, es: Seq<(Seq<char>, int, i32)>) -> bool {
    &&& forall|j: int, k: int| 0 <= j < k < gs.len() ==> text_lt(#[trigger] gs[j].0, #[trigger] gs[k].0)
    &&& forall|j: int|
        0 <= j < gs.len() ==> (#[trigger] gs[j]).1 == code_total(es, gs[j].0) && gs[j].2
            == code_accounts(es, gs[j].0)
    &&& forall|m: int|
        0 <= m < es.len() ==> exists|j: int| 0 <= j < gs.len() && (#[trigger] gs[j]).0 == (#[trigger] es[m]).0
}

proof fn lemma_code_push(es: Seq<(Seq<char>, int, i32)>, e: (Seq<char>, int, i32), c: Seq<char>)
    ensures
        code_total(es.push(e), c) == code_total(es, c) + if e.0 == c {
            e.1
        } else {
            0
        },
        code_accounts(es.push(e), c) == if e.0 == c {
            code_accounts(es, c).push(e.2)
        } else {
            code_accounts(es, c)
        },
{
    assert(es.push(e).drop_last() =~= es);
}

proof fn lemma_code_absent(es: Seq<(Seq<char>, int, i32)>, c: Seq<char>)
    requires
        forall|m: int| 0 <= m < es.len() ==> (#[trigger] es[m]).0 != c,
    ensures
        code_total(es, c) == 0,
        code_accounts(es, c) == Seq::<i32>::empty(),
    decreases es.len(),
{
    if es.len() > 0 {
        assert(es.last() == es[es.len() - 1]);
        lemma_code_absent(es.drop_last(), c);
    }
}

proof fn lemma_code_bound(es: Seq<(Seq<char>, int, i32)>, c: Seq<char>)
    requires
        forall|m: int| 0 <= m < es.len() ==> -0x8000_0000_0000_0000 <= (#[trigger] es[m]).1 <= 0x7fff_ffff_ffff_ffff,
    ensures
        -(es.len() as int) * 0x8000_0000_0000_0000 <= code_total(es, c) <= (es.len() as int) * 0x7fff_ffff_ffff_ffff,
    decreases es.len(),
{
    if es.len() > 0 {
        assert(es.last() == es[es.len() - 1]);
        lemma_code_bound(es.drop_last(), c);
    }
}

/// Groups the entries by SRU code, in the order of the codes.
fn group_by_code(es: &Vec<(String, i64, i32)>) -> (g: Vec<(String, i128, Vec<i32>)>)
    ensures
        groups_match(group_views(g@), entry_views(es@)),
{
    let ghost ev = entry_views(es@);
    let mut g: Vec<(String, i128, Vec<i32>)> = Vec::new();
    let mut i: usize = 0;
    while i < es.len()
        invariant
            i <= es@.len(),
            ev == entry_views(es@),
            groups_match(group_views(g@), ev.take(i as int)),
        decreases es.len() - i,
    {
        let ghost pre = ev.take(i as int);
        let ghost gv = group_views(g@);
        let ghost e = ev[i as int];
        assert(ev.take(i + 1) =~= pre.push(e));
        let code = &es[i].0;
        let amount = es[i].1;
        let number = es[i].2;
        assert(e == (code@, amount as int, number));
        let mut p: usize = 0;
        while p < g.len() && compare_text(g[p].0.as_str(), code.as_str()) < 0
            invariant
                p <= g@.len(),
                gv == group_views(g@),
                forall|j: int| 0 <= j < p ==> text_lt(#[trigger] gv[j].0, code@),
            decreases g.len() - p,
        {
            p += 1;
        }
        let found = p < g.len() && compare_text(g[p].0.as_str(), code.as_str()) == 0;
        proof {
            // every group after p has a larger code than the entry
            if p < gv.len() && !found {
                lemma_text_order(gv[p as int].0, code@);
                assert(text_lt(code@, gv[p as int].0));
                assert forall|k: int| p < k < gv.len() implies text_lt(code@, #[trigger] gv[k].0) by {
                    assert(text_lt(gv[p as int].0, gv[k].0));
                    lemma_text_lt_trans(code@, gv[p as int].0, gv[k].0);
                }
            }
            assert forall|k: int| 0 <= k < gv.len() && k != p implies (#[trigger] gv[k]).0 != code@ by {
                if k < p {
                    lemma_text_order(gv[k].0, code@);
                } else if found {
                    assert(text_lt(gv[p as int].0, gv[k].0));
                    lemma_text_order(gv[k].0, gv[k].0);
                } else {
                    lemma_text_order(code@, code@);
                }
            }
            if !found {
                if p < gv.len() {
                    lemma_text_order(code@, code@);
                }
                assert forall|m: int| 0 <= m < pre.len() implies (#[trigger] pre[m]).0 != code@ by {
                    let j = choose|j: int| 0 <= j < gv.len() && (#[trigger] gv[j]).0 == pre[m].0;
                    assert(gv[j].0 == pre[m].0);
                }
                lemma_code_absent(pre, code@);
            }
            assert forall|m: int| 0 <= m < pre.len() implies -0x8000_0000_0000_0000 <= (#[trigger] pre[m]).1
                <= 0x7fff_ffff_ffff_ffff by {
                assert(pre[m] == ev[m]);
            }
            lemma_code_bound(pre, code@);
            assert((i as int) < 0x1_0000_0000_0000_0000);
            assert((pre.len() as int) * 0x8000_0000_0000_0000 <= 0x1_0000_0000_0000_0000
                * 0x8000_0000_0000_0000) by (nonlinear_arith)
                requires
                    pre.len() < 0x1_0000_0000_0000_0000,
            ;
            assert((pre.len() as int) * 0x7fff_ffff_ffff_ffff <= 0x1_0000_0000_0000_0000
                * 0x7fff_ffff_ffff_ffff) by (nonlinear_arith)
                requires
                    pre.len() < 0x1_0000_0000_0000_0000,
            ;
            assert forall|c: Seq<char>| true implies code_total(pre.push(e), c) == code_total(pre, c) + (if e.0
                == c {
                e.1
            } else {
                0
            }) && code_accounts(pre.push(e), c) == (if e.0 == c {
                code_accounts(pre, c).push(e.2)
            } else {
                code_accounts(pre, c)
            }) by {
                lemma_code_push(pre, e, c);
            }
        }
        if found {
            let old_group = g.remove(p);
            let (gcode, gamount, mut gnumbers) = old_group;
            proof {
                assert(gv[p as int] == (gcode@, gamount as int, gnumbers@));
                lemma_code_bound(pre, code@);
            }
            gnumbers.push(number);
            let new_amount = gamount + amount as i128;
            g.insert(p, (gcode, new_amount, gnumbers));
            proof {
                let nv = group_views(g@);
                assert(nv =~= gv.update(p as int, (code@, new_amount as int, gv[p as int].2.push(number))));
                assert forall|m: int| 0 <= m < pre.len() + 1 implies exists|j: int|
                    0 <= j < nv.len() && (#[trigger] nv[j]).0 == (#[trigger] pre.push(e)[m]).0 by {
                    if m < pre.len() {
                        assert(pre.push(e)[m] == pre[m]);
                        let j = choose|j: int| 0 <= j < gv.len() && (#[trigger] gv[j]).0 == pre[m].0;
                        assert(nv[j].0 == gv[j].0);
                    } else {
                        assert(nv[p as int].0 == code@);
                    }
                }
            }
        } else {
            let mut numbers: Vec<i32> = Vec::new();
            numbers.push(number);
            let new_code = to_string(code.as_str());
            g.insert(p, (new_code, amount as i128, numbers));
            proof {
                let nv = group_views(g@);
                assert(nv =~= gv.insert(p as int, (code@, amount as int, seq![number])));
                assert(code_accounts(pre, code@).push(number) =~= seq![number]);
                assert forall|j: int, k: int| 0 <= j < k < nv.len() implies text_lt(
                    #[trigger] nv[j].0,
                    #[trigger] nv[k].0,
                ) by {
                    if k < p {
                    } else if k == p {
                    } else if j < p {
                        assert(text_lt(gv[j].0, code@));
                        assert(text_lt(code@, gv[k - 1].0));
                        lemma_text_lt_trans(gv[j].0, code@, gv[k - 1].0);
                    } else if j == p {
                    } else {
                        assert(text_lt(gv[j - 1].0, gv[k - 1].0));
                    }
                }
                assert forall|m: int| 0 <= m < pre.len() + 1 implies exists|j: int|
                    0 <= j < nv.len() && (#[trigger] nv[j]).0 == (#[trigger] pre.push(e)[m]).0 by {
                    if m < pre.len() {
                        assert(pre.push(e)[m] == pre[m]);
                        let j = choose|j: int| 0 <= j < gv.len() && (#[trigger] gv[j]).0 == pre[m].0;
                        if j < p {
                            assert(nv[j].0 == gv[j].0);
                        } else {
                            assert(nv[j + 1].0 == gv[j].0);
                        }
                    } else {
                        assert(nv[p as int].0 == code@);
                    }
                }
            }
        }
        i += 1;
    }
    assert(ev.take(ev.len() as int) =~= ev);
    g
}

/// Every balance that an SRU field can take up has a balance that an
/// amount can hold, with room for a change of sign.
pub open spec fn balances_within(bs: Seq<AccountBalance>) -> bool {
    forall|i: int| 0 <= i < bs.len() ==> within(#[trigger] net_of(bs[i]))
}

proof fn lemma_find_within(bs: Seq<AccountBalance>, n: i32)
    requires
        balances_within(bs),
    ensures
        find_balance(bs, n) matches Some(b) ==> within(net_of(b)),
    decreases bs.len(),
{
    if bs.len() > 0 && bs[0].account_number != n {
        let rest = bs.subrange(1, bs.len() as int);
        assert forall|i: int| 0 <= i < rest.len() implies within(#[trigger] net_of(rest[i])) by {
            assert(rest[i] == bs[i + 1]);
        }
        lemma_find_within(rest, n);
    } else if bs.len() > 0 {
        assert(within(net_of(bs[0])));
    }
}

/// The entries of the accounts that have an SRU code.
fn entries_of(accounts: &[AccountSru], all: &[AccountBalance], operational: &[AccountBalance]) -> (es: Vec<
    (String, i64, i32),
>)
    requires
        balances_within(all@),
        balances_within(operational@),
    ensures
        entry_views(es@) == sru_entries(accounts@, all@, operational@),
        forall|m: int| 0 <= m < es@.len() ==> within(#[trigger] es@[m].1 as int),
{
    let mut es: Vec<(String, i64, i32)> = Vec::new();
    let mut i: usize = 0;
    assert(entry_views(es@) =~= sru_entries(accounts@.take(0), all@, operational@));
    while i < accounts.len()
        invariant
            i <= accounts@.len(),
            balances_within(all@),
            balances_within(operational@),
            entry_views(es@) == sru_entries(accounts@.take(i as int), all@, operational@),
            forall|m: int| 0 <= m < es@.len() ==> within(#[trigger] es@[m].1 as int),
        decreases accounts.len() - i,
    {
        let acc = &accounts[i];
        assert(accounts@.take(i + 1).drop_last() =~= accounts@.take(i as int));
        assert(accounts@.take(i + 1).last() == accounts@[i as int]);
        if let Some(code) = &acc.sru_code {
            let number = acc.number;
            let found = if number < 3000 {
                find_account(all, number)
            } else {
                find_account(operational, number)
            };
            proof {
                lemma_find_within(all@, number);
                lemma_find_within(operational@, number);
            }
            let amount: i64 = match found {
                Some(b) => {
                    let net = b.total_debit.sub(b.total_credit);
                    if 2000 <= number && number < 4000 {
                        net.neg().to_ore()
                    } else {
                        net.to_ore()
                    }
                },
                None => 0,
            };
            assert(amount == sru_amount(number, all@, operational@));
            let ghost before = es@;
            es.push((to_string(code.as_str()), amount, number));
            assert(entry_views(es@) =~= entry_views(before).push((code@, amount as int, number)));
        }
        i += 1;
    }
    assert(accounts@.take(accounts@.len() as int) =~= accounts@);
    es
}

fn copy_numbers(v: &Vec<i32>) -> (r: Vec<i32>)
    ensures
        r@ == v@,
{
    let r = v.clone();
    assert(r@ =~= v@);
    r
}

/// Every SRU code's amounts sum to what an amount can hold.
pub open spec fn code_totals_fit(es: Seq<(Seq<char>, int, i32)>) -> bool {
    forall|m: int| 0 <= m < es.len() ==> fits_i64(code_total(es, (#[trigger] es[m]).0))
}

/// The fields: the groups whose amounts do not sum to zero.
fn fields_of_groups(g: &Vec<(String, i128, Vec<i32>)>, Ghost(es): Ghost<Seq<(Seq<char>, int, i32)>>) -> (fs: Vec<
    Ink2Field,
>)
    requires
        groups_match(group_views(g@), es),
        code_totals_fit(es),
    ensures
        fields_match(field_views(fs@), es),
{
    let ghost gv = group_views(g@);
    let mut fs: Vec<Ink2Field> = Vec::new();
    let mut i: usize = 0;
    while i < g.len()
        invariant
            i <= g@.len(),
            gv == group_views(g@),
            groups_match(gv, es),
            code_totals_fit(es),
            forall|j: int, k: int|
                0 <= j < k < fs@.len() ==> text_lt(#[trigger] field_views(fs@)[j].0, #[trigger] field_views(fs@)[k].0),
            forall|j: int|
                0 <= j < fs@.len() ==> {
                    let f = #[trigger] field_views(fs@)[j];
                    &&& f.2 == code_total(es, f.0)
                    &&& f.2 != 0
                    &&& f.3 == code_accounts(es, f.0)
                    &&& f.1 == sru_label_text(f.0)
                },
            forall|j: int, k: int|
                0 <= j < fs@.len() && i <= k < gv.len() ==> text_lt(#[trigger] field_views(fs@)[j].0, #[trigger] gv[k].0),
            forall|k: int|
                0 <= k < i && gv[k].1 != 0 ==> exists|j: int|
                    0 <= j < fs@.len() && (#[trigger] field_views(fs@)[j]).0 == (#[trigger] gv[k]).0,
        decreases g.len() - i,
    {
        let ghost fv = field_views(fs@);
        let grp = &g[i];
        assert(gv[i as int] == (grp.0@, grp.1 as int, grp.2@));
        if grp.1 != 0 {
            proof {
                // the code of a group occurs among the entries, so its sum fits
                assert(grp.1 == code_total(es, grp.0@));
                if forall|m: int| 0 <= m < es.len() ==> (#[trigger] es[m]).0 != grp.0@ {
                    lemma_code_absent(es, grp.0@);
                }
                let m = choose|m: int| 0 <= m < es.len() && (#[trigger] es[m]).0 == grp.0@;
                assert(fits_i64(code_total(es, es[m].0)));
            }
            let f = Ink2Field {
                sru_code: to_string(grp.0.as_str()),
                label: to_string(sru_label(grp.0.as_str())),
                amount: Money::from_ore(grp.1 as i64),
                accounts: copy_numbers(&grp.2),
            };
            fs.push(f);
            proof {
                let nv = field_views(fs@);
                assert(nv =~= fv.push(f@));
                assert forall|j: int, k: int| 0 <= j < k < nv.len() implies text_lt(
                    #[trigger] nv[j].0,
                    #[trigger] nv[k].0,
                ) by {
                    if k == fv.len() {
                        assert(text_lt(fv[j].0, gv[i as int].0));
                    } else {
                        assert(text_lt(fv[j].0, fv[k].0));
                    }
                }
                assert forall|j: int, k: int| 0 <= j < nv.len() && i + 1 <= k < gv.len() implies text_lt(
                    #[trigger] nv[j].0,
                    #[trigger] gv[k].0,
                ) by {
                    if j == fv.len() {
                        assert(text_lt(gv[i as int].0, gv[k].0));
                    } else {
                        assert(text_lt(fv[j].0, gv[k].0));
                    }
                }
                assert forall|k: int| 0 <= k < i + 1 && gv[k].1 != 0 implies exists|j: int|
                    0 <= j < nv.len() && (#[trigger] nv[j]).0 == (#[trigger] gv[k]).0 by {
                    if k == i {
                        assert(nv[fv.len() as int].0 == gv[k].0);
                    } else {
                        let j = choose|j: int| 0 <= j < fv.len() && (#[trigger] fv[j]).0 == gv[k].0;
                        assert(nv[j].0 == gv[k].0);
                    }
                }
            }
        }
        i += 1;
    }
    proof {
        let fv = field_views(fs@);
        assert forall|m: int| 0 <= m < es.len() && code_total(es, (#[trigger] es[m]).0) != 0 implies exists|j: int|
            0 <= j < fv.len() && (#[trigger] fv[j]).0 == es[m].0 by {
            let k = choose|k: int| 0 <= k < gv.len() && (#[trigger] gv[k]).0 == es[m].0;
            assert(gv[k].1 == code_total(es, gv[k].0));
        }
    }
    fs
}

fn copy_field(f: &Ink2Field) -> (r: Ink2Field)
    ensures
        r@ == f@,
{
    Ink2Field {
        sru_code: to_string(f.sru_code.as_str()),
        label: to_string(f.label.as_str()),
        amount: f.amount,
        accounts: copy_numbers(&f.accounts),
    }
}

pub open spec fn titled_views(ss: Seq<(String, Vec<Ink2Field>)>) -> Seq<
    (Seq<char>, Seq<(Seq<char>, Seq<char>, int, Seq<i32>)>),
> {
    ss.map_values(|s: (String, Vec<Ink2Field>)| (s.0@, field_views(s.1@)))
}

proof fn lemma_section_push(
    fs: Seq<(Seq<char>, Seq<char>, int, Seq<i32>)>,
    f: (Seq<char>, Seq<char>, int, Seq<i32>),
    t: Seq<char>,
)
    ensures
        section_fields(fs.push(f), t) == if sru_section_text(f.0) == t {
            section_fields(fs, t).push(f)
        } else {
            section_fields(fs, t)
        },
{
    assert(fs.push(f).drop_last() =~= fs);
}

proof fn lemma_section_absent(fs: Seq<(Seq<char>, Seq<char>, int, Seq<i32>)>, t: Seq<char>)
    requires
        forall|m: int| 0 <= m < fs.len() ==> sru_section_text((#[trigger] fs[m]).0) != t,
    ensures
        section_fields(fs, t) == Seq::<(Seq<char>, Seq<char>, int, Seq<i32>)>::empty(),
    decreases fs.len(),
{
    if fs.len() > 0 {
        assert(fs.last() == fs[fs.len() - 1]);
        lemma_section_absent(fs.drop_last(), t);
    }
}

/// Groups the fields by the section of their code, in the order of the titles.
fn sections_of_fields(fs: &Vec<Ink2Field>) -> (r: Vec<Ink2Section>)
    ensures
        sections_match(section_views(r@), field_views(fs@)),
{
    let ghost fv = field_views(fs@);
    let mut g: Vec<(String, Vec<Ink2Field>)> = Vec::new();
    let mut i: usize = 0;
    while i < fs.len()
        invariant
            i <= fs@.len(),
            fv == field_views(fs@),
            forall|j: int, k: int|
                0 <= j < k < g@.len() ==> text_lt(#[trigger] titled_views(g@)[j].0, #[trigger] titled_views(g@)[k].0),
            forall|j: int|
                0 <= j < g@.len() ==> (#[trigger] titled_views(g@)[j]).1 == section_fields(
                    fv.take(i as int),
                    titled_views(g@)[j].0,
                ) && titled_views(g@)[j].1.len() > 0,
            forall|m: int| 0 <= m < i ==> has_title(titled_views(g@), sru_section_text((#[trigger] fv[m]).0)),
        decreases fs.len() - i,
    {
        let ghost pre = fv.take(i as int);
        let ghost gv = titled_views(g@);
        let ghost f = fv[i as int];
        assert(fv.take(i + 1) =~= pre.push(f));
        let title = sru_section(fs[i].sru_code.as_str());
        assert(f == fs@[i as int]@);
        let mut p: usize = 0;
        while p < g.len() && compare_text(g[p].0.as_str(), title) < 0
            invariant
                p <= g@.len(),
                gv == titled_views(g@),
                forall|j: int| 0 <= j < p ==> text_lt(#[trigger] gv[j].0, title@),
            decreases g.len() - p,
        {
            p += 1;
        }
        let found = p < g.len() && compare_text(g[p].0.as_str(), title) == 0;
        proof {
            if p < gv.len() && !found {
                lemma_text_order(gv[p as int].0, title@);
                assert forall|k: int| p < k < gv.len() implies text_lt(title@, #[trigger] gv[k].0) by {
                    assert(text_lt(gv[p as int].0, gv[k].0));
                    lemma_text_lt_trans(title@, gv[p as int].0, gv[k].0);
                }
            }
            assert forall|k: int| 0 <= k < gv.len() && k != p implies (#[trigger] gv[k]).0 != title@ by {
                if k < p {
                    lemma_text_order(gv[k].0, title@);
                } else if found {
                    assert(text_lt(gv[p as int].0, gv[k].0));
                    lemma_text_order(gv[k].0, gv[k].0);
                } else {
                    lemma_text_order(title@, title@);
                }
            }
            if !found {
                if p < gv.len() {
                    lemma_text_order(title@, title@);
                }
                assert forall|m: int| 0 <= m < pre.len() implies sru_section_text((#[trigger] pre[m]).0)
                    != title@ by {
                    assert(pre[m] == fv[m]);
                    assert(has_title(gv, sru_section_text(fv[m].0)));
                    let j = choose|j: int| 0 <= j < gv.len() && (#[trigger] gv[j]).0 == sru_section_text(fv[m].0);
                }
                lemma_section_absent(pre, title@);
            }
            assert forall|t: Seq<char>| true implies section_fields(pre.push(f), t) == (if sru_section_text(f.0)
                == t {
                section_fields(pre, t).push(f)
            } else {
                section_fields(pre, t)
            }) by {
                lemma_section_push(pre, f, t);
            }
        }
        let field = copy_field(&fs[i]);
        if found {
            let (gtitle, mut gfields) = g.remove(p);
            assert(gv[p as int] == (gtitle@, field_views(gfields@)));
            let ghost before = gfields@;
            gfields.push(field);
            assert(field_views(gfields@) =~= field_views(before).push(f));
            g.insert(p, (gtitle, gfields));
            proof {
                let nv = titled_views(g@);
                assert(nv =~= gv.update(p as int, (title@, gv[p as int].1.push(f))));
                assert forall|m: int| 0 <= m < i + 1 implies has_title(nv, sru_section_text((#[trigger] fv[m]).0)) by {
                    if m < i {
                        assert(has_title(gv, sru_section_text(fv[m].0)));
                        let j = choose|j: int| 0 <= j < gv.len() && (#[trigger] gv[j]).0 == sru_section_text(fv[m].0);
                        assert(nv[j].0 == gv[j].0);
                    } else {
                        assert(nv[p as int].0 == title@);
                    }
                }
            }
        } else {
            let mut fields: Vec<Ink2Field> = Vec::new();
            fields.push(field);
            assert(field_views(fields@) =~= seq![f]);
            g.insert(p, (to_string(title), fields));
            proof {
                let nv = titled_views(g@);
                assert(nv =~= gv.insert(p as int, (title@, seq![f])));
                assert(section_fields(pre, title@).push(f) =~= seq![f]);
                assert forall|j: int, k: int| 0 <= j < k < nv.len() implies text_lt(
                    #[trigger] nv[j].0,
                    #[trigger] nv[k].0,
                ) by {
                    if k < p {
                    } else if k == p {
                    } else if j < p {
                        assert(text_lt(gv[j].0, title@));
                        assert(text_lt(title@, gv[k - 1].0));
                        lemma_text_lt_trans(gv[j].0, title@, gv[k - 1].0);
                    } else if j == p {
                    } else {
                        assert(text_lt(gv[j - 1].0, gv[k - 1].0));
                    }
                }
                assert forall|m: int| 0 <= m < i + 1 implies has_title(nv, sru_section_text((#[trigger] fv[m]).0)) by {
                    if m < i {
                        assert(has_title(gv, sru_section_text(fv[m].0)));
                        let j = choose|j: int| 0 <= j < gv.len() && (#[trigger] gv[j]).0 == sru_section_text(fv[m].0);
                        if j < p {
                            assert(nv[j].0 == gv[j].0);
                        } else {
                            assert(nv[j + 1].0 == gv[j].0);
                        }
                    } else {
                        assert(nv[p as int].0 == title@);
                    }
                }
            }
        }
        i += 1;
    }
    assert(fv.take(fv.len() as int) =~= fv);
    let ghost gv = titled_views(g@);
    assert(i == fv.len());
    assert(fv.take(i as int) == fv);
    assert forall|j: int, k: int| 0 <= j < k < gv.len() implies text_lt(#[trigger] gv[j].0, #[trigger] gv[k].0) by {
        assert(gv[j] == titled_views(g@)[j]);
        assert(gv[k] == titled_views(g@)[k]);
    }
    assert forall|j: int| 0 <= j < gv.len() implies (#[trigger] gv[j]).1 == section_fields(fv, gv[j].0)
        && gv[j].1.len() > 0 by {
        assert(gv[j] == titled_views(g@)[j]);
    }
    assert forall|m: int| 0 <= m < fv.len() implies has_title(gv, sru_section_text((#[trigger] fv[m]).0)) by {
        assert(has_title(titled_views(g@), sru_section_text(fv[m].0)));
    }
    assert(sections_match(gv, fv));
    let mut r: Vec<Ink2Section> = Vec::new();
    while g.len() > 0
        invariant
            section_views(r@) + titled_views(g@) == gv,
        decreases g.len(),
    {
        let (title, fields) = g.remove(0);
        let ghost before = r@;
        let ghost rest = titled_views(g@);
        r.push(Ink2Section { title, fields });
        assert(section_views(r@) + titled_views(g@) =~= section_views(before) + seq![(title@, field_views(fields@))] + rest);
    }
    assert(section_views(r@) =~= gv);
    r
}

/// The INK2 data of a fiscal year: the company, the year's dates, and the
/// fields and sections that the accounts with an SRU code make up. Balance
/// sheet accounts (classes 1-2) take their balance from `all_balances`, the
/// rest from `operational_balances` (the balances without closing entries,
/// but for 8910).
pub fn build_ink2_data(
    company_name: String,
    org_number: String,
    fiscal_year_start: String,
    fiscal_year_end: String,
    accounts: &[AccountSru],
    all_balances: &[AccountBalance],
    operational_balances: &[AccountBalance],
) -> (d: Ink2Data)
    requires
        balances_within(all_balances@),
        balances_within(operational_balances@),
        code_totals_fit(sru_entries(accounts@, all_balances@, operational_balances@)),
    ensures
        d.company_name@ == company_name@,
        d.org_number@ == org_number@,
        d.fiscal_year_start@ == fiscal_year_start@,
        d.fiscal_year_end@ == fiscal_year_end@,
        fields_match(field_views(d.fields@), sru_entries(accounts@, all_balances@, operational_balances@)),
        sections_match(section_views(d.sections@), field_views(d.fields@)),
{
    let es = entries_of(accounts, all_balances, operational_balances);
    let groups = group_by_code(&es);
    let fields = fields_of_groups(&groups, Ghost(entry_views(es@)));
    let sections = sections_of_fields(&fields);
    Ink2Data { company_name, org_number, fiscal_year_start, fiscal_year_end, fields, sections }
}

} // verus!
