//! The shared state of the bot: the prefixes of the guilds, and the reading
//! of ids out of the guild-configuration collection.

use dashmap::DashMap;
use vstd::prelude::*;

use crate::text::parse_unsigned_at_most;
use crate::util::database_store::{found_text_id, stored_id, Lookup, FieldValue};

verus! {

/// `dashmap::DashMap`, a concurrent hash map, held opaque; what it holds is
/// named by [`prefix_entries`].
#[verifier::external_type_specification]
#[verifier::external_body]
#[verifier::reject_recursive_types(K)]
#[verifier::reject_recursive_types(V)]
#[verifier::reject_recursive_types(S)]
pub struct ExDashMap<K, V, S>(DashMap<K, V, S>);

/// What a `DashMap` of guild ids to prefixes holds.
pub uninterp spec fn prefix_entries(map: DashMap<u64, String>) -> Map<u64, Seq<char>>;

/// `DashMap::new`: a map that holds nothing.
#[verifier::external_body]
fn prefix_map_new() -> (fresh: DashMap<u64, String>)
    ensures
        prefix_entries(fresh).dom() == Set::<u64>::empty(),
{
    DashMap::new()
}

/// `DashMap::insert`: `prefix` is now held for `guild`, whatever was before;
/// the other entries stay.
#[verifier::external_body]
fn prefix_map_insert(map: &mut DashMap<u64, String>, guild: u64, prefix: String)
    ensures
        prefix_entries(*final(map)) == prefix_entries(*old(map)).insert(guild, prefix@),
{
    map.insert(guild, prefix);
}

/// `DashMap::remove`: nothing is held for `guild` any more; the other
/// entries stay.
#[verifier::external_body]
fn prefix_map_remove(map: &mut DashMap<u64, String>, guild: u64)
    ensures
        prefix_entries(*final(map)) == prefix_entries(*old(map)).remove(guild),
{
    map.remove(&guild);
}

/// `DashMap::get`, the entry's value cloned: the prefix held for `guild`, if any.
#[verifier::external_body]
fn prefix_map_get(map: &DashMap<u64, String>, guild: u64) -> (r: Option<String>)
    ensures
        match r {
            Some(p) => prefix_entries(*map).contains_key(guild) && prefix_entries(*map)[guild]
                == p@,
            None => !prefix_entries(*map).contains_key(guild),
        },
{
    match map.get(&guild) {
        Some(entry) => Some(entry.value().clone()),
        None => None,
    }
}

/// The prefixes that guilds chose in place of the default one, by guild id.
pub struct Prefixes {
    map: DashMap<u64, String>,
}

/// A guild's stored prefix as the collection gives it back: the guild's id
/// and its prefix, or a document that could not be read.
#[derive(Debug, Clone)]
pub enum PrefixDocument {
    Read { guild_id: i64, prefix: String },
    Failed,
}

/// The prefixes that a sequence of stored documents yields, read in order:
/// a later document for the same guild overrides an earlier one, and
/// unreadable documents are skipped.
pub open spec fn loaded_prefixes(docs: Seq<PrefixDocument>) -> Map<u64, Seq<char>>
    decreases docs.len(),
{
    if docs.len() == 0 {
        Map::empty()
    } else {
        let before = loaded_prefixes(docs.drop_last());
        match docs.last() {
            PrefixDocument::Read { guild_id, prefix } => before.insert(stored_id(guild_id), prefix@),
            PrefixDocument::Failed => before,
        }
    }
}

/// The prefix that applies to a message: that of its guild, where it was
/// sent in a guild that has one.
pub open spec fn spec_prefix_for(prefixes: Map<u64, Seq<char>>, guild: Option<u64>) -> Option<
    Seq<char>,
> {
    match guild {
        Some(g) => if prefixes.contains_key(g) {
            Some(prefixes[g])
        } else {
            None
        },
        None => None,
    }
}

/// Loading reads the documents in order: a later readable document for a
/// guild decides its prefix, and an unreadable one changes nothing.
pub proof fn law_later_document_wins(docs: Seq<PrefixDocument>, guild_id: i64, prefix: String)
    ensures
        loaded_prefixes(docs.push(PrefixDocument::Read { guild_id, prefix }))[stored_id(guild_id)]
            == prefix@,
        loaded_prefixes(docs.push(PrefixDocument::Read { guild_id, prefix })) == loaded_prefixes(
            docs,
        ).insert(guild_id as u64, prefix@),
        loaded_prefixes(docs.push(PrefixDocument::Failed)) == loaded_prefixes(docs),
{
    assert(docs.push(PrefixDocument::Read { guild_id, prefix }).drop_last() =~= docs);
    assert(docs.push(PrefixDocument::Failed).drop_last() =~= docs);
}

/// The guild that a document gives a prefix to, if it is readable.
pub open spec fn document_guild(doc: PrefixDocument) -> Option<u64> {
    match doc {
        PrefixDocument::Read { guild_id, .. } => Some(guild_id as u64),
        PrefixDocument::Failed => None,
    }
}

/// Every guild keeps the prefix of its last readable document: where the
/// document at `i` is readable and no later readable document is for the
/// same guild, the loaded prefixes give that guild the document's prefix,
/// whatever the other documents hold.
pub proof fn law_last_document_of_guild_decides(
    docs: Seq<PrefixDocument>,
    i: int,
    guild_id: i64,
    prefix: String,
)
    requires
        0 <= i < docs.len(),
        docs[i] == (PrefixDocument::Read { guild_id, prefix }),
        forall|j: int| i < j < docs.len() ==> document_guild(#[trigger] docs[j]) != Some(guild_id as u64),
    ensures
        loaded_prefixes(docs).contains_key(guild_id as u64),
        loaded_prefixes(docs)[guild_id as u64] == prefix@,
    decreases docs.len(),
{
    if i < docs.len() - 1 {
        let before = docs.drop_last();
        assert(before[i] == docs[i]);
        assert forall|j: int| i < j < before.len() implies document_guild(#[trigger] before[j])
            != Some(guild_id as u64) by {
            assert(docs[j] == before[j]);
        }
        law_last_document_of_guild_decides(before, i, guild_id, prefix);
        let last = docs.len() - 1;
        assert(docs[last] == docs.last());
        match docs.last() {
            PrefixDocument::Read { guild_id: g, prefix: p } => {
                assert(document_guild(docs[last]) == Some(g as u64));
            },
            PrefixDocument::Failed => {},
        }
    } else {
        assert(docs.last() == docs[i]);
    }
}

/// Only guilds with a readable document have a prefix after loading.
pub proof fn law_loaded_guilds_were_read(docs: Seq<PrefixDocument>, guild: u64)
    requires
        loaded_prefixes(docs).contains_key(guild),
    ensures
        exists|i: int| 0 <= i < docs.len() && document_guild(#[trigger] docs[i]) == Some(guild),
    decreases docs.len(),
{
    let last = docs.len() - 1;
    assert(docs[last] == docs.last());
    match docs.last() {
        PrefixDocument::Read { guild_id: g, prefix: p } => {
            assert(document_guild(docs[last]) == Some(g as u64));
            if g as u64 != guild {
                law_loaded_guilds_were_read(docs.drop_last(), guild);
                let i = choose|i: int|
                    0 <= i < docs.drop_last().len() && document_guild(#[trigger] docs.drop_last()[i])
                        == Some(guild);
                assert(docs[i] == docs.drop_last()[i]);
            }
        },
        PrefixDocument::Failed => {
            law_loaded_guilds_were_read(docs.drop_last(), guild);
            let i = choose|i: int|
                0 <= i < docs.drop_last().len() && document_guild(#[trigger] docs.drop_last()[i])
                    == Some(guild);
            assert(docs[i] == docs.drop_last()[i]);
        },
    }
}

/// A direct message (no guild) never has a prefix of its own.
pub proof fn law_direct_messages_use_default(prefixes: Map<u64, Seq<char>>)
    ensures
        spec_prefix_for(prefixes, None) is None,
{
}

impl View for Prefixes {
    type V = Map<u64, Seq<char>>;

    closed spec fn view(&self) -> Map<u64, Seq<char>> {
        prefix_entries(self.map)
    }
}

impl Prefixes {
    /// No guild has a prefix of its own.
    pub fn new() -> (p: Prefixes)
        ensures
            p@ == Map::<u64, Seq<char>>::empty(),
    {
        let p = Prefixes { map: prefix_map_new() };
        assert(p@ =~= Map::<u64, Seq<char>>::empty());
        p
    }

    /// The prefixes that the stored documents yield, read in order.
    pub fn load(docs: &Vec<PrefixDocument>) -> (p: Prefixes)
        ensures
            p@ == loaded_prefixes(docs@),
    {
        let mut p = Prefixes::new();
        let mut i: usize = 0;
        while i < docs.len()
            invariant
                i <= docs.len(),
                p@ == loaded_prefixes(docs@.subrange(0, i as int)),
            decreases docs.len() - i,
        {
            let ghost before = docs@.subrange(0, i as int);
            assert(docs@.subrange(0, i + 1).drop_last() =~= before);
            assert(docs@.subrange(0, i + 1).last() == docs@[i as int]);
            match &docs[i] {
                PrefixDocument::Read { guild_id, prefix } => {
                    p.set(*guild_id as u64, prefix.clone());
                },
                PrefixDocument::Failed => {},
            }
            i = i + 1;
        }
        assert(docs@.subrange(0, i as int) =~= docs@);
        p
    }

    /// `guild` now uses `prefix`.
    pub fn set(&mut self, guild: u64, prefix: String)
        ensures
            final(self)@ == old(self)@.insert(guild, prefix@),
    {
        prefix_map_insert(&mut self.map, guild, prefix);
    }

    /// `guild` goes back to the default prefix.
    pub fn reset(&mut self, guild: u64)
        ensures
            final(self)@ == old(self)@.remove(guild),
    {
        prefix_map_remove(&mut self.map, guild);
    }

    /// The prefix of `guild`, if it has one of its own.
    pub fn get(&self, guild: u64) -> (r: Option<String>)
        ensures
            match r {
                Some(p) => self@.contains_key(guild) && self@[guild] == p@,
                None => !self@.contains_key(guild),
            },
    {
        prefix_map_get(&self.map, guild)
    }

    /// The prefix that applies to a message sent in `guild` (`None` for a
    /// direct message): the guild's own, where it has one.
    pub fn prefix_for(&self, guild: Option<u64>) -> (r: Option<String>)
        ensures
            match r {
                Some(p) => spec_prefix_for(self@, guild) == Some(p@),
                None => spec_prefix_for(self@, guild) is None,
            },
    {
        match guild {
            Some(g) => self.get(g),
            None => None,
        }
    }
}

/// Reads ids out of the guild-configuration collection.
pub struct Database;

impl Database {
    /// The id that a lookup found as a string of decimal digits, such as the
    /// stored ticket category.
    pub fn guild_config_get_id(lookup: &Lookup) -> (r: Option<u64>)
        ensures
            match r {
                Some(id) => found_text_id(*lookup) == Some(id as nat),
                None => found_text_id(*lookup) is None,
            },
    {
        match lookup {
            Lookup::Document(Some(FieldValue::Text(s))) => parse_unsigned_at_most(
                s.as_str(),
                u64::MAX,
            ),
            _ => None,
        }
    }
}

} // verus!
