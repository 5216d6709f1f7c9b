//! The cluster topology as the store node is told it: for each node, the
//! nodes next to it.
use vstd::prelude::*;
use serde_json::Value;
use crate::fields::{lemma_texts_round_trip, read_texts, text_trees, texts_in, write_texts};
use crate::json::{as_array, entries_of, object_get, object_keys, object_new, Fields, JsonTree};

verus! {

/// The model of a topology: the neighbours of each node that has any listed.
pub type Links = Map<Seq<char>, Seq<Seq<char>>>;

/// A topology, one entry per node. Where a node is entered twice, the later
/// entry counts. It is kept as a list, which is walked in one fixed order
/// when it is written; what it means is the map that [`links_of`] gives.
#[derive(Debug, Clone, PartialEq, Eq)]
pub struct Topology {
    pub entries: Vec<(String, Vec<String>)>,
}

/// The links that a sequence of entries amounts to.
pub open spec fn links_of(entries: Seq<(String, Vec<String>)>) -> Links
    decreases entries.len(),
{
    if entries.len() == 0 {
        Links::empty()
    } else {
        links_of(entries.drop_last()).insert(entries.last().0@, entries.last().1.deep_view())
    }
}

impl View for Topology {
    type V = Links;

    open spec fn view(&self) -> Links {
        links_of(self.entries@)
    }
}

/// Whether `tree` is an array of strings.
pub open spec fn is_text_list(tree: JsonTree) -> bool {
    tree matches JsonTree::List(items) && texts_in(items) is Some
}

/// The links that the members of an object stand for: every member must be
/// an array of strings.
pub open spec fn links_in(members: Fields) -> Option<Links> {
    if forall|k: Seq<char>| #[trigger] members.contains_key(k) ==> is_text_list(members[k]) {
        Some(
            Links::new(
                |k: Seq<char>| members.contains_key(k),
                |k: Seq<char>| texts_in(members[k]->List_0)->0,
            ),
        )
    } else {
        None
    }
}

/// The members that stand for `links`: under each node, the array of its
/// neighbours.
pub open spec fn link_fields(links: Links) -> Fields {
    Fields::new(
        |k: Seq<char>| links.contains_key(k),
        |k: Seq<char>| JsonTree::List(text_trees(links[k])),
    )
}

/// Reading back the members written for `links` gives `links`.
pub proof fn lemma_links_round_trip(links: Links)
    ensures
        links_in(link_fields(links)) == Some(links),
{
    let members = link_fields(links);
    assert forall|k: Seq<char>| #[trigger] links.contains_key(k) implies texts_in(
        members[k]->List_0,
    )->0 == links[k] by {
        lemma_texts_round_trip(links[k]);
    }
}

/// Adding an entry to the links adds its member to the fields.
pub proof fn lemma_link_fields_insert(links: Links, node: Seq<char>, neighbours: Seq<Seq<char>>)
    ensures
        link_fields(links.insert(node, neighbours)) == link_fields(links).insert(
            node,
            JsonTree::List(text_trees(neighbours)),
        ),
{
}

impl Topology {
    /// Reads a topology out of the members of an object.
    pub fn read(members: &serde_json::Map<String, Value>) -> (r: Option<Topology>)
        ensures
            match r {
                Some(topology) => links_in(entries_of(*members)) == Some(topology@),
                None => links_in(entries_of(*members)) is None,
            },
    {
        let ghost fields = entries_of(*members);
        let keys = object_keys(members);
        let ghost names = keys.deep_view();
        let mut entries: Vec<(String, Vec<String>)> = Vec::new();
        let mut i: usize = 0;
        while i < keys.len()
            invariant
                i <= keys.len(),
                fields == entries_of(*members),
                names == keys.deep_view(),
                names.to_set() == fields.dom(),
                forall|j: int| 0 <= j < i ==> is_text_list(fields[#[trigger] names[j]]),
                forall|k: Seq<char>| #[trigger]
                    links_of(entries@).contains_key(k) <==> exists|j: int|
                        0 <= j < i && names[j] == k,
                forall|k: Seq<char>| #[trigger]
                    links_of(entries@).contains_key(k) ==> links_of(entries@)[k] == texts_in(
                        fields[k]->List_0,
                    )->0,
            decreases keys.len() - i,
        {
            let ghost name = names[i as int];
            let neighbours = match object_get(members, keys[i].as_str()) {
                Some(value) => match as_array(value) {
                    Some(items) => match read_texts(items) {
                        Some(neighbours) => neighbours,
                        None => { return None; },
                    },
                    None => { return None; },
                },
                None => { return None; },
            };
            let ghost before = entries@;
            entries.push((keys[i].clone(), neighbours));
            proof {
                assert(entries@.drop_last() =~= before);
                assert(links_of(entries@) == links_of(before).insert(
                    name,
                    neighbours.deep_view(),
                ));
            }
            i += 1;
        }
        Some(Topology { entries })
    }

    /// The object members that stand for this topology.
    pub fn write(&self) -> (members: serde_json::Map<String, Value>)
        ensures
            entries_of(members) == link_fields(self@),
    {
        let mut members = object_new();
        let mut i: usize = 0;
        while i < self.entries.len()
            invariant
                i <= self.entries.len(),
                entries_of(members) == link_fields(links_of(self.entries@.take(i as int))),
            decreases self.entries.len() - i,
        {
            proof {
                let head = self.entries@.take(i as int);
                let next = self.entries@.take(i + 1);
                assert(next.drop_last() =~= head);
                lemma_link_fields_insert(
                    links_of(head),
                    self.entries@[i as int].0@,
                    self.entries@[i as int].1.deep_view(),
                );
            }
            write_texts(&mut members, self.entries[i].0.as_str(), &self.entries[i].1);
            i += 1;
        }
        assert(self.entries@.take(i as int) =~= self.entries@);
        members
    }
}

} // verus!
