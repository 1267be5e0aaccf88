//! The nodes that a relay trusts, each with the request budget it is granted.

use vstd::hash_map::StringHashMap;
use vstd::prelude::*;
use vstd::string::*;

use crate::node::NodeId;
use crate::session::TrustCheck;

verus! {

/// What a relay knows of a trusted node.
#[derive(Debug)]
pub struct TrustEntry {
    pub label: String,
    pub rate_limit_per_min: u32,
}

/// The content of a [`TrustEntry`].
#[verifier::ext_equal]
pub struct TrustEntryView {
    pub label: Seq<char>,
    pub rate_limit_per_min: u32,
}

impl View for TrustEntry {
    type V = TrustEntryView;

    open spec fn view(&self) -> TrustEntryView {
        TrustEntryView { label: self.label@, rate_limit_per_min: self.rate_limit_per_min }
    }
}

/// The trusted nodes, by id.
pub struct TrustStore {
    entries: StringHashMap<TrustEntry>,
}

impl View for TrustStore {
    type V = Map<Seq<char>, TrustEntryView>;

    closed spec fn view(&self) -> Map<Seq<char>, TrustEntryView> {
        self.entries@.map_values(|entry: TrustEntry| entry@)
    }
}

impl TrustStore {
    /// A store that trusts nobody.
    pub fn new() -> (store: Self)
        ensures
            store@ == Map::<Seq<char>, TrustEntryView>::empty(),
    {
        let store = TrustStore { entries: StringHashMap::new() };
        assert(store@ =~= Map::<Seq<char>, TrustEntryView>::empty());
        store
    }

    /// Trust `node` from now on, with the given label and request budget. An
    /// earlier entry of the node is replaced.
    pub fn add(&mut self, node: NodeId, label: &str, rate_limit_per_min: u32)
        ensures
            final(self)@ == old(self)@.insert(
                node@,
                TrustEntryView { label: label@, rate_limit_per_min },
            ),
    {
        self.entries.insert(node.0, TrustEntry { label: label.to_owned(), rate_limit_per_min });
        assert(self@ =~= old(self)@.insert(
            node@,
            TrustEntryView { label: label@, rate_limit_per_min },
        ));
    }

    /// The entry of `node`, if it is trusted.
    pub fn get(&self, node: &NodeId) -> (entry: Option<&TrustEntry>)
        ensures
            match entry {
                Some(entry) => self@.contains_key(node@) && entry@ == self@[node@],
                None => !self@.contains_key(node@),
            },
    {
        self.entries.get(node.0.as_str())
    }
}

impl TrustCheck for TrustStore {
    open spec fn may_be_asked(&self, issuer: NodeId) -> bool {
        true
    }

    open spec fn may_answer(&self, issuer: NodeId, answer: bool) -> bool {
        answer == self@.contains_key(issuer@)
    }

    /// Whether the store has an entry of `issuer`.
    fn is_trusted(&self, issuer: &NodeId) -> (answer: bool) {
        self.get(issuer).is_some()
    }
}

/// Law: the content of an entry is its label and its budget.
pub proof fn law_entries_show_their_content(entry: TrustEntry)
    ensures
        entry@.label == entry.label@,
        entry@.rate_limit_per_min == entry.rate_limit_per_min,
{
}

} // verus!
