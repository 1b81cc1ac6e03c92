//! The registry of live connections as contracts see it, and what starting
//! and stopping a server do to it.

use vstd::prelude::*;

verus! {

/// A live connection to one server: the client handle through which the
/// server is reached. The registry entry owns it.
#[derive(Debug, PartialEq, Eq)]
pub struct MCPConnection<C> {
    pub client: C,
}

/// The registry as contracts see it: the entries in the order in which their
/// names were first registered, each a name and its connection.
pub type Entries<C> = Seq<(Seq<char>, MCPConnection<C>)>;

/// Whether place `i` of `entries` holds `name`.
pub open spec fn holds_at<C>(entries: Entries<C>, name: Seq<char>, i: int) -> bool {
    0 <= i < entries.len() && entries[i].0 == name
}

/// Whether `name` is registered.
pub open spec fn has_name<C>(entries: Entries<C>, name: Seq<char>) -> bool {
    exists|i: int| holds_at(entries, name, i)
}

/// The place at which `name` is registered, if it is.
pub open spec fn slot_of<C>(entries: Entries<C>, name: Seq<char>) -> int {
    choose|i: int| holds_at(entries, name, i)
}

/// No name is registered twice.
pub open spec fn names_distinct<C>(entries: Entries<C>) -> bool {
    forall|i: int, j: int|
        0 <= i < j < entries.len() ==> (#[trigger] entries[i]).0 != (#[trigger] entries[j]).0
}

/// The registered names, in registry order.
pub open spec fn names_of<C>(entries: Entries<C>) -> Seq<Seq<char>> {
    Seq::new(entries.len(), |i: int| entries[i].0)
}

/// The registry after `name` was stopped: its entry is gone, the others stay
/// as they were; a name that is not registered changes nothing.
pub open spec fn without<C>(entries: Entries<C>, name: Seq<char>) -> Entries<C> {
    if has_name(entries, name) {
        entries.remove(slot_of(entries, name))
    } else {
        entries
    }
}

/// The registry after `connection` was registered under `name`: it takes the
/// place of an entry of that name, or comes last where there was none.
pub open spec fn with_entry<C>(
    entries: Entries<C>,
    name: Seq<char>,
    connection: MCPConnection<C>,
) -> Entries<C> {
    if has_name(entries, name) {
        entries.update(slot_of(entries, name), (name, connection))
    } else {
        entries.push((name, connection))
    }
}

/// In a registry without repeated names, a place that holds a name is the
/// place of that name.
pub proof fn lemma_slot_unique<C>(entries: Entries<C>, name: Seq<char>, i: int)
    requires
        names_distinct(entries),
        holds_at(entries, name, i),
    ensures
        has_name(entries, name),
        slot_of(entries, name) == i,
{
    let j = slot_of(entries, name);
    assert(holds_at(entries, name, j));
    if j < i {
        assert(entries[j].0 != entries[i].0);
    } else if i < j {
        assert(entries[i].0 != entries[j].0);
    }
}

/// Stopping a name that is not registered leaves the registry as it was.
pub proof fn law_stop_unregistered<C>(entries: Entries<C>, name: Seq<char>)
    requires
        !has_name(entries, name),
    ensures
        without(entries, name) == entries,
{
}

/// After a name was stopped it is not registered and not among the
/// registered names; every other name is registered exactly if it was, and no
/// name is registered twice.
pub proof fn law_stopped_is_absent<C>(entries: Entries<C>, name: Seq<char>)
    requires
        names_distinct(entries),
    ensures
        !has_name(without(entries, name), name),
        !names_of(without(entries, name)).contains(name),
        names_distinct(without(entries, name)),
        forall|other: Seq<char>|
            other != name ==> (has_name(without(entries, name), other) <==> has_name(
                entries,
                other,
            )),
{
    let after = without(entries, name);
    if has_name(entries, name) {
        let k = slot_of(entries, name);
        assert(holds_at(entries, name, k));
        assert forall|i: int| 0 <= i < after.len() implies (#[trigger] after[i]).0 != name by {
            if i < k {
                assert(after[i] == entries[i]);
                assert(entries[i].0 != entries[k].0);
            } else {
                assert(after[i] == entries[i + 1]);
                assert(entries[k].0 != entries[i + 1].0);
            }
        }
        assert forall|i: int, j: int| 0 <= i < j < after.len() implies (#[trigger] after[i]).0 != (
        #[trigger] after[j]).0 by {
            let a = if i < k { i } else { i + 1 };
            let b = if j < k { j } else { j + 1 };
            assert(after[i] == entries[a]);
            assert(after[j] == entries[b]);
            assert(entries[a].0 != entries[b].0);
        }
        assert forall|other: Seq<char>| other != name implies (has_name(after, other)
            <==> has_name(entries, other)) by {
            if has_name(after, other) {
                let i = slot_of(after, other);
                assert(holds_at(after, other, i));
                let a = if i < k { i } else { i + 1 };
                assert(after[i] == entries[a]);
                assert(holds_at(entries, other, a));
            }
            if has_name(entries, other) {
                let a = slot_of(entries, other);
                assert(holds_at(entries, other, a));
                assert(a != k);
                let i = if a < k { a } else { a - 1 };
                assert(after[i] == entries[a]);
                assert(holds_at(after, other, i));
            }
        }
    } else {
        assert forall|i: int| 0 <= i < after.len() implies (#[trigger] after[i]).0 != name by {
            assert(!holds_at(entries, name, i));
        }
    }
    assert(!has_name(after, name)) by {
        if has_name(after, name) {
            let i = slot_of(after, name);
            assert(holds_at(after, name, i));
            assert(after[i].0 != name);
        }
    }
    assert(!names_of(after).contains(name)) by {
        if names_of(after).contains(name) {
            let i = choose|i: int| 0 <= i < names_of(after).len() && names_of(after)[i] == name;
            assert(after[i].0 != name);
        }
    }
}

/// After a connection was registered under a name, the name is registered
/// with that connection and is among the registered names; every other name
/// is registered exactly if it was, and no name is registered twice.
pub proof fn law_started_is_present<C>(
    entries: Entries<C>,
    name: Seq<char>,
    connection: MCPConnection<C>,
)
    requires
        names_distinct(entries),
    ensures
        has_name(with_entry(entries, name, connection), name),
        with_entry(entries, name, connection)[slot_of(
            with_entry(entries, name, connection),
            name,
        )].1 == connection,
        names_of(with_entry(entries, name, connection)).contains(name),
        names_distinct(with_entry(entries, name, connection)),
        forall|other: Seq<char>|
            other != name ==> (has_name(with_entry(entries, name, connection), other)
                <==> has_name(entries, other)),
{
    let after = with_entry(entries, name, connection);
    let k = if has_name(entries, name) {
        slot_of(entries, name)
    } else {
        entries.len() as int
    };
    if has_name(entries, name) {
        assert(holds_at(entries, name, k));
    }
    assert(after[k] == (name, connection));
    assert(holds_at(after, name, k));
    assert forall|i: int, j: int| 0 <= i < j < after.len() implies (#[trigger] after[i]).0 != (
    #[trigger] after[j]).0 by {
        if has_name(entries, name) {
            assert(after[i].0 == entries[i].0);
            assert(after[j].0 == entries[j].0);
            assert(entries[i].0 != entries[j].0);
        } else if j == k {
            assert(after[i] == entries[i]);
            assert(!holds_at(entries, name, i));
        } else {
            assert(after[i] == entries[i]);
            assert(after[j] == entries[j]);
            assert(entries[i].0 != entries[j].0);
        }
    }
    lemma_slot_unique(after, name, k);
    assert(names_of(after)[k] == name);
    assert forall|other: Seq<char>| other != name implies (has_name(after, other) <==> has_name(
        entries,
        other,
    )) by {
        if has_name(after, other) {
            let i = slot_of(after, other);
            assert(holds_at(after, other, i));
            assert(i != k);
            assert(after[i] == entries[i]);
            assert(holds_at(entries, other, i));
        }
        if has_name(entries, other) {
            let i = slot_of(entries, other);
            assert(holds_at(entries, other, i));
            assert(after[i].0 == entries[i].0);
            assert(holds_at(after, other, i));
        }
    }
}

} // verus!
