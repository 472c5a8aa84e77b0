//! The kinds of financial entities an extractor recognizes in messages.

use vstd::prelude::*;
use crate::pattern::{find_all, regex_find_all};
use crate::text::{to_lowercase, lowercase};

verus! {

/// The type of a financial entity.
#[derive(Debug, Clone, PartialEq, Eq, Hash)]
pub enum FinancialEntityType {
    Account,
    Asset,
    Liability,
    Income,
    Expense,
    Goal,
    Institution,
    Product,
    Tax,
    Insurance,
    Person,
    Other(String),
}

impl FinancialEntityType {
    /// The type as it is displayed: its name, or `Other(` and the given
    /// name and `)`.
    pub open spec fn spec_label(self) -> Seq<char> {
        match self {
            FinancialEntityType::Account => "Account"@,
            FinancialEntityType::Asset => "Asset"@,
            FinancialEntityType::Liability => "Liability"@,
            FinancialEntityType::Income => "Income"@,
            FinancialEntityType::Expense => "Expense"@,
            FinancialEntityType::Goal => "Goal"@,
            FinancialEntityType::Institution => "Institution"@,
            FinancialEntityType::Product => "Product"@,
            FinancialEntityType::Tax => "Tax"@,
            FinancialEntityType::Insurance => "Insurance"@,
            FinancialEntityType::Person => "Person"@,
            FinancialEntityType::Other(name) => "Other("@ + name@ + ")"@,
        }
    }

    /// The type as it is displayed (see `spec_label`).
    pub fn label(&self) -> (s: String)
        ensures
            s@ == self.spec_label(),
    {
        match self {
            FinancialEntityType::Account => String::from_str("Account"),
            FinancialEntityType::Asset => String::from_str("Asset"),
            FinancialEntityType::Liability => String::from_str("Liability"),
            FinancialEntityType::Income => String::from_str("Income"),
            FinancialEntityType::Expense => String::from_str("Expense"),
            FinancialEntityType::Goal => String::from_str("Goal"),
            FinancialEntityType::Institution => String::from_str("Institution"),
            FinancialEntityType::Product => String::from_str("Product"),
            FinancialEntityType::Tax => String::from_str("Tax"),
            FinancialEntityType::Insurance => String::from_str("Insurance"),
            FinancialEntityType::Person => String::from_str("Person"),
            FinancialEntityType::Other(name) => {
                let mut s = String::from_str("Other(");
                s.append(name.as_str());
                s.append(")");
                s
            },
        }
    }
}


/// A known entity name mentioned in a message: its type, the name, and the
/// byte offset at which its first mention starts.
pub struct NameMention {
    pub entity_type: FinancialEntityType,
    pub name: &'static str,
    pub start: usize,
}

/// A mention as plain values.
pub open spec fn mention_views(ms: Seq<NameMention>) -> Seq<(FinancialEntityType, Seq<char>, usize)> {
    ms.map_values(|m: NameMention| (m.entity_type, m.name@, m.start))
}

/// The entity names the extractor knows, by type, in the order they are
/// looked for: accounts, liabilities, income and assets.
pub open spec fn entity_name_table() -> Seq<(FinancialEntityType, Seq<Seq<char>>)> {
    seq![
        (FinancialEntityType::Account, seq![r"401[k|K]"@, r"IRA"@, r"Roth"@, r"checking account"@, r"savings account"@, r"brokerage account"@, r"HSA"@, r"529"@, r"CD"@, r"certificate of deposit"@]),
        (FinancialEntityType::Liability, seq![r"mortgage"@, r"loan"@, r"debt"@, r"credit card"@, r"student loan"@, r"auto loan"@, r"personal loan"@, r"HELOC"@, r"home equity"@]),
        (FinancialEntityType::Income, seq![r"salary"@, r"wage"@, r"income"@, r"dividend"@, r"interest"@, r"rental income"@, r"social security"@, r"pension"@, r"annuity"@, r"bonus"@, r"commission"@]),
        (FinancialEntityType::Asset, seq![r"stock"@, r"bond"@, r"ETF"@, r"mutual fund"@, r"real estate"@, r"property"@, r"home"@, r"house"@, r"investment property"@, r"gold"@, r"silver"@, r"cryptocurrency"@, r"bitcoin"@, r"ethereum"@]),
    ]
}

/// Where the first mention of a name starts in a message, both lower-cased
/// (the name is a pattern), if it is mentioned.
pub open spec fn first_mention(name: Seq<char>, content: Seq<char>) -> Option<usize> {
    let ms = regex_find_all(lowercase(name), lowercase(content));
    if ms.len() > 0 { Some(ms[0].0) } else { None }
}

/// The names of a list that a message mentions, in the list's order.
pub open spec fn group_mentions(t: FinancialEntityType, names: Seq<Seq<char>>, content: Seq<char>) -> Seq<(FinancialEntityType, Seq<char>, usize)>
    decreases names.len(),
{
    if names.len() == 0 {
        Seq::empty()
    } else {
        let rest = group_mentions(t, names.drop_last(), content);
        match first_mention(names.last(), content) {
            Some(start) => rest.push((t, names.last(), start)),
            None => rest,
        }
    }
}

/// The names of a table that a message mentions, group by group.
pub open spec fn table_mentions(table: Seq<(FinancialEntityType, Seq<Seq<char>>)>, content: Seq<char>) -> Seq<(FinancialEntityType, Seq<char>, usize)>
    decreases table.len(),
{
    if table.len() == 0 {
        Seq::empty()
    } else {
        table_mentions(table.drop_last(), content) + group_mentions(table.last().0, table.last().1, content)
    }
}

fn add_group_mentions(r: &mut Vec<NameMention>, t: FinancialEntityType, names: &Vec<&'static str>, lower: &String, Ghost(content): Ghost<Seq<char>>)
    requires
        lower@ == lowercase(content),
        t matches FinancialEntityType::Other(_) ==> false,
    ensures
        mention_views(final(r)@) == mention_views(old(r)@) + group_mentions(t, names@.map_values(|n: &str| n@), content),
{
    let ghost start_views = mention_views(r@);
    let ghost ns = names@.map_values(|n: &str| n@);
    let mut i: usize = 0;
    while i < names.len()
        invariant
            i <= names@.len(),
            ns == names@.map_values(|n: &str| n@),
            lower@ == lowercase(content),
            t matches FinancialEntityType::Other(_) ==> false,
            mention_views(r@) == start_views + group_mentions(t, ns.take(i as int), content),
        decreases names@.len() - i,
    {
        let name = names[i];
        let pattern = to_lowercase(name);
        let found = find_all(pattern.as_str(), lower.as_str());
        proof {
            assert(ns.take(i + 1).drop_last() =~= ns.take(i as int));
            assert(ns.take(i + 1).last() == name@);
        }
        let ghost before = mention_views(r@);
        if found.len() > 0 {
            let ty = match t {
                FinancialEntityType::Account => FinancialEntityType::Account,
                FinancialEntityType::Liability => FinancialEntityType::Liability,
                FinancialEntityType::Income => FinancialEntityType::Income,
                FinancialEntityType::Asset => FinancialEntityType::Asset,
                FinancialEntityType::Expense => FinancialEntityType::Expense,
                FinancialEntityType::Goal => FinancialEntityType::Goal,
                FinancialEntityType::Institution => FinancialEntityType::Institution,
                FinancialEntityType::Product => FinancialEntityType::Product,
                FinancialEntityType::Tax => FinancialEntityType::Tax,
                FinancialEntityType::Insurance => FinancialEntityType::Insurance,
                FinancialEntityType::Person => FinancialEntityType::Person,
                FinancialEntityType::Other(_) => FinancialEntityType::Person,
            };
            proof {
                assert(found@[0].view_triple() == regex_find_all(pattern@, lower@)[0]);
            }
            r.push(NameMention { entity_type: ty, name, start: found[0].start });
            assert(mention_views(r@) =~= before.push((t, name@, found@[0].start)));
        } else {
            assert(regex_find_all(pattern@, lower@).len() == 0);
        }
        i = i + 1;
    }
    assert(ns.take(i as int) =~= ns);
}

/// The known entity names a message mentions (see `entity_name_table`):
/// each name with its type and the byte offset of its first mention, where
/// the name, read as a pattern, matches the lower-cased message once
/// lower-cased itself; group by group, in the table's order.
pub fn find_entity_names(content: &str) -> (r: Vec<NameMention>)
    ensures
        mention_views(r@) == table_mentions(entity_name_table(), content@),
{
    let lower = to_lowercase(content);
    let mut r: Vec<NameMention> = Vec::new();
    assert(mention_views(r@) =~= table_mentions(entity_name_table().take(0), content@));
    let names = vec![r"401[k|K]", r"IRA", r"Roth", r"checking account", r"savings account", r"brokerage account", r"HSA", r"529", r"CD", r"certificate of deposit"];
    assert(names@.map_values(|n: &str| n@) =~= entity_name_table()[0].1);
    add_group_mentions(&mut r, FinancialEntityType::Account, &names, &lower, Ghost(content@));
    assert(mention_views(r@) =~= table_mentions(entity_name_table().take(1), content@)) by {
        assert(entity_name_table().take(1).drop_last() =~= entity_name_table().take(0));
    }
    let names = vec![r"mortgage", r"loan", r"debt", r"credit card", r"student loan", r"auto loan", r"personal loan", r"HELOC", r"home equity"];
    assert(names@.map_values(|n: &str| n@) =~= entity_name_table()[1].1);
    add_group_mentions(&mut r, FinancialEntityType::Liability, &names, &lower, Ghost(content@));
    assert(mention_views(r@) =~= table_mentions(entity_name_table().take(2), content@)) by {
        assert(entity_name_table().take(2).drop_last() =~= entity_name_table().take(1));
    }
    let names = vec![r"salary", r"wage", r"income", r"dividend", r"interest", r"rental income", r"social security", r"pension", r"annuity", r"bonus", r"commission"];
    assert(names@.map_values(|n: &str| n@) =~= entity_name_table()[2].1);
    add_group_mentions(&mut r, FinancialEntityType::Income, &names, &lower, Ghost(content@));
    assert(mention_views(r@) =~= table_mentions(entity_name_table().take(3), content@)) by {
        assert(entity_name_table().take(3).drop_last() =~= entity_name_table().take(2));
    }
    let names = vec![r"stock", r"bond", r"ETF", r"mutual fund", r"real estate", r"property", r"home", r"house", r"investment property", r"gold", r"silver", r"cryptocurrency", r"bitcoin", r"ethereum"];
    assert(names@.map_values(|n: &str| n@) =~= entity_name_table()[3].1);
    add_group_mentions(&mut r, FinancialEntityType::Asset, &names, &lower, Ghost(content@));
    assert(mention_views(r@) =~= table_mentions(entity_name_table().take(4), content@)) by {
        assert(entity_name_table().take(4).drop_last() =~= entity_name_table().take(3));
    }
    assert(entity_name_table().take(4) =~= entity_name_table());
    r
}

} // verus!
