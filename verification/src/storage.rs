//! The SQL scripts that create and seed the retrieval store, by name.

use vstd::prelude::*;
use crate::text::str_eq;

verus! {

/// The texts of the store's SQL scripts.
#[derive(Debug, Clone)]
pub struct SqlScripts {
    pub init: String,
    pub support_tickets: String,
    pub seed_base: String,
    pub seed_tool_catalog: String,
    pub seed_command_catalog: String,
}

/// The migrations, in the order they run.
pub open spec fn migration_names_spec() -> Seq<Seq<char>> {
    seq!["0001_kernelia_rag_init.sql"@, "0002_kernelia_rag_support_tickets.sql"@]
}

/// The seeds, in the order they run.
pub open spec fn seed_names_spec() -> Seq<Seq<char>> {
    seq!["0001_kernelia_rag_seed_base.sql"@, "0002_kernelia_rag_seed_tool_catalog.sql"@, "0003_kernelia_rag_seed_command_catalog.sql"@]
}

/// The migrations with their SQL, in order.
pub fn all_migrations(scripts: &SqlScripts) -> (r: Vec<(&'static str, &str)>)
    ensures
        r@.len() == 2,
        r@[0].0@ == migration_names_spec()[0] && r@[0].1@ == scripts.init@,
        r@[1].0@ == migration_names_spec()[1] && r@[1].1@ == scripts.support_tickets@,
{
    vec![
        ("0001_kernelia_rag_init.sql", scripts.init.as_str()),
        ("0002_kernelia_rag_support_tickets.sql", scripts.support_tickets.as_str()),
    ]
}

/// The seeds with their SQL, in order.
pub fn all_seeds(scripts: &SqlScripts) -> (r: Vec<(&'static str, &str)>)
    ensures
        r@.len() == 3,
        r@[0].0@ == seed_names_spec()[0] && r@[0].1@ == scripts.seed_base@,
        r@[1].0@ == seed_names_spec()[1] && r@[1].1@ == scripts.seed_tool_catalog@,
        r@[2].0@ == seed_names_spec()[2] && r@[2].1@ == scripts.seed_command_catalog@,
{
    vec![
        ("0001_kernelia_rag_seed_base.sql", scripts.seed_base.as_str()),
        ("0002_kernelia_rag_seed_tool_catalog.sql", scripts.seed_tool_catalog.as_str()),
        ("0003_kernelia_rag_seed_command_catalog.sql", scripts.seed_command_catalog.as_str()),
    ]
}

/// The names of the migrations, in order.
pub fn migration_names() -> (r: Vec<&'static str>)
    ensures
        r@.map_values(|s: &str| s@) == migration_names_spec(),
{
    let r = vec!["0001_kernelia_rag_init.sql", "0002_kernelia_rag_support_tickets.sql"];
    assert(r@.map_values(|s: &str| s@) =~= migration_names_spec());
    r
}

/// The names of the seeds, in order.
pub fn seed_names() -> (r: Vec<&'static str>)
    ensures
        r@.map_values(|s: &str| s@) == seed_names_spec(),
{
    let r = vec!["0001_kernelia_rag_seed_base.sql", "0002_kernelia_rag_seed_tool_catalog.sql", "0003_kernelia_rag_seed_command_catalog.sql"];
    assert(r@.map_values(|s: &str| s@) =~= seed_names_spec());
    r
}

/// The SQL of the first entry named `name`, if any.
pub open spec fn script_named(entries: Seq<(Seq<char>, Seq<char>)>, name: Seq<char>, i: int) -> Option<Seq<char>>
    decreases entries.len() - i,
{
    if i < 0 || i >= entries.len() {
        None
    } else if entries[i].0 == name {
        Some(entries[i].1)
    } else {
        script_named(entries, name, i + 1)
    }
}

fn lookup<'a>(entries: &Vec<(&'static str, &'a str)>, name: &str) -> (r: Option<&'a str>)
    ensures
        match r {
            Some(s) => script_named(entries@.map_values(|e: (&'static str, &'a str)| (e.0@, e.1@)), name@, 0) == Some(s@),
            None => script_named(entries@.map_values(|e: (&'static str, &'a str)| (e.0@, e.1@)), name@, 0) is None,
        },
{
    let ghost views = entries@.map_values(|e: (&'static str, &'a str)| (e.0@, e.1@));
    let mut k: usize = 0;
    while k < entries.len()
        invariant
            k <= entries.len(),
            views == entries@.map_values(|e: (&'static str, &'a str)| (e.0@, e.1@)),
            script_named(views, name@, 0) == script_named(views, name@, k as int),
        decreases entries.len() - k,
    {
        let (candidate, sql) = entries[k];
        if str_eq(candidate, name) {
            return Some(sql);
        }
        k += 1;
    }
    None
}

/// The SQL of the migration named `name`.
pub fn migration_sql<'a>(scripts: &'a SqlScripts, name: &str) -> (r: Option<&'a str>)
    ensures
        match r {
            Some(s) => script_named(seq![(migration_names_spec()[0], scripts.init@), (migration_names_spec()[1], scripts.support_tickets@)], name@, 0) == Some(s@),
            None => script_named(seq![(migration_names_spec()[0], scripts.init@), (migration_names_spec()[1], scripts.support_tickets@)], name@, 0) is None,
        },
{
    let entries = all_migrations(scripts);
    let ghost views = entries@.map_values(|e: (&'static str, &'a str)| (e.0@, e.1@));
    assert(views =~= seq![(migration_names_spec()[0], scripts.init@), (migration_names_spec()[1], scripts.support_tickets@)]);
    lookup(&entries, name)
}

/// The SQL of the base seed.
pub fn base_seed_sql(scripts: &SqlScripts) -> (r: &str)
    ensures
        r@ == scripts.seed_base@,
{
    scripts.seed_base.as_str()
}

/// The SQL of the seed named `name`.
pub fn seed_sql<'a>(scripts: &'a SqlScripts, name: &str) -> (r: Option<&'a str>)
    ensures
        match r {
            Some(s) => script_named(seq![(seed_names_spec()[0], scripts.seed_base@), (seed_names_spec()[1], scripts.seed_tool_catalog@), (seed_names_spec()[2], scripts.seed_command_catalog@)], name@, 0) == Some(s@),
            None => script_named(seq![(seed_names_spec()[0], scripts.seed_base@), (seed_names_spec()[1], scripts.seed_tool_catalog@), (seed_names_spec()[2], scripts.seed_command_catalog@)], name@, 0) is None,
        },
{
    let entries = all_seeds(scripts);
    let ghost views = entries@.map_values(|e: (&'static str, &'a str)| (e.0@, e.1@));
    assert(views =~= seq![(seed_names_spec()[0], scripts.seed_base@), (seed_names_spec()[1], scripts.seed_tool_catalog@), (seed_names_spec()[2], scripts.seed_command_catalog@)]);
    lookup(&entries, name)
}

/// Each migration and each seed is found by its own name, with its own
/// SQL, and no other name finds anything.
pub proof fn lemma_scripts_by_name(scripts: SqlScripts, name: Seq<char>)
    ensures
        script_named(seq![(migration_names_spec()[0], scripts.init@), (migration_names_spec()[1], scripts.support_tickets@)], name, 0)
            == (if name == migration_names_spec()[0] {
                Some(scripts.init@)
            } else if name == migration_names_spec()[1] {
                Some(scripts.support_tickets@)
            } else {
                None
            }),
        script_named(seq![(seed_names_spec()[0], scripts.seed_base@), (seed_names_spec()[1], scripts.seed_tool_catalog@), (seed_names_spec()[2], scripts.seed_command_catalog@)], name, 0)
            == (if name == seed_names_spec()[0] {
                Some(scripts.seed_base@)
            } else if name == seed_names_spec()[1] {
                Some(scripts.seed_tool_catalog@)
            } else if name == seed_names_spec()[2] {
                Some(scripts.seed_command_catalog@)
            } else {
                None
            }),
{
    reveal_strlit("0001_kernelia_rag_init.sql");
    reveal_strlit("0002_kernelia_rag_support_tickets.sql");
    reveal_strlit("0001_kernelia_rag_seed_base.sql");
    reveal_strlit("0002_kernelia_rag_seed_tool_catalog.sql");
    reveal_strlit("0003_kernelia_rag_seed_command_catalog.sql");
    assert(migration_names_spec()[0].len() != migration_names_spec()[1].len());
    assert(seed_names_spec()[0].len() != seed_names_spec()[1].len());
    assert(seed_names_spec()[0].len() != seed_names_spec()[2].len());
    assert(seed_names_spec()[1].len() != seed_names_spec()[2].len());
    reveal_with_fuel(script_named, 4);
}

} // verus!
