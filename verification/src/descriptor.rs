//! The handle by which the peer manager knows a connection.
use crate::connection;
use crate::connection::Connection;
use vstd::prelude::*;
use vstd::std_specs::cmp::PartialEqSpec;

verus! {

/// Refers to a connection. All descriptors of one connection are equal, and different from those
/// of any other connection.
///
/// `C` is the way to the shared state of the connection.
pub struct SocketDescriptor<C> {
    /// The way to the shared state of the connection.
    pub conn: C,
    /// The number of the connection.
    pub id: u64,
}

impl<C> SocketDescriptor<C> {
    /// The descriptor of `connection`, which is reached through `conn`.
    pub fn new<W>(conn: C, connection: &Connection<W>) -> (descriptor: Self)
        ensures
            descriptor.conn == conn,
            descriptor.id == connection.id,
    {
        SocketDescriptor { conn, id: connection.id }
    }
}

impl<C: Clone> Clone for SocketDescriptor<C> {
    fn clone(&self) -> (copy: Self)
        ensures
            copy.id == self.id,
            cloned(self.conn, copy.conn),
    {
        SocketDescriptor { conn: self.conn.clone(), id: self.id }
    }
}

impl<C> PartialEq for SocketDescriptor<C> {
    fn eq(&self, other: &Self) -> (equal: bool) {
        self.id == other.id
    }
}

impl<C> vstd::std_specs::cmp::PartialEqSpecImpl for SocketDescriptor<C> {
    open spec fn obeys_eq_spec() -> bool {
        true
    }

    open spec fn eq_spec(&self, other: &Self) -> bool {
        self.id == other.id
    }
}

impl<C> Eq for SocketDescriptor<C> {

}

/// Calls `u64::hash`, which feeds the number to the hasher. What the hasher makes of it is its own
/// business, so nothing is claimed of how the hasher changes. The contract of hashing a descriptor
/// speaks of this call, so it is public.
#[verifier::external_body]
pub fn hash_number<H: std::hash::Hasher>(number: u64, state: &mut H) {
    std::hash::Hash::hash(&number, state)
}

/// Calls `feed` once, with `number` and the hasher.
fn feed_once<H, F: FnOnce(u64, &mut H)>(feed: F, number: u64, hasher: &mut H)
    requires
        forall|state: &mut H| #[trigger] call_requires(feed, (number, state)),
    ensures
        exists|state: &mut H| #[trigger]
            call_ensures(feed, (number, state), ()) && *state == *old(hasher) && *final(state)
                == *final(hasher),
{
    feed(number, hasher)
}

impl<C> std::hash::Hash for SocketDescriptor<C> {
    /// Feeds the number of the connection to the hasher, and nothing else: the hasher goes from
    /// what it was to what it is by one call of `hash_number` on that number.
    fn hash<H: std::hash::Hasher>(&self, state: &mut H)
        ensures
            exists|fed: &mut H| #[trigger]
                call_ensures(hash_number::<H>, (self.id, fed), ()) && *fed == *old(state)
                    && *final(fed) == *final(state),
    {
        feed_once(hash_number::<H>, self.id, state)
    }
}

/// Being equal is an equivalence: a descriptor is equal to itself, to those that are equal to it,
/// and to those that are equal to one that is equal to it.
pub proof fn equality_is_an_equivalence<C>(
    a: SocketDescriptor<C>,
    b: SocketDescriptor<C>,
    c: SocketDescriptor<C>,
)
    ensures
        a.eq_spec(&a),
        a.eq_spec(&b) ==> b.eq_spec(&a),
        a.eq_spec(&b) && b.eq_spec(&c) ==> a.eq_spec(&c),
{
}

/// Descriptors tell connections apart: those of one connection are equal, and different from
/// those of any other, unless all the numbers that there are were used in between.
pub proof fn descriptors_tell_connections_apart<C>(
    a: SocketDescriptor<C>,
    b: SocketDescriptor<C>,
    first: u64,
    i: nat,
    j: nat,
)
    requires
        a.id == connection::id_after_steps(first, i),
        b.id == connection::id_after_steps(first, j),
        i <= j,
        j - i < 0x1_0000_0000_0000_0000,
    ensures
        a.eq_spec(&b) <==> i == j,
{
    if i < j {
        connection::ids_differ(first, i, j);
    }
}

/// Equal descriptors hash alike: whatever hashing the one can do to a hasher, hashing the other can
/// do, and nothing else. That stays so whatever happens to the connections.
pub proof fn equal_descriptors_hash_alike<C, H: std::hash::Hasher>(
    a: SocketDescriptor<C>,
    b: SocketDescriptor<C>,
    before: H,
    after: H,
)
    requires
        a.eq_spec(&b),
    ensures
        (exists|fed: &mut H| #[trigger]
            call_ensures(hash_number::<H>, (a.id, fed), ()) && *fed == before && *final(fed)
                == after) <==> (exists|fed: &mut H| #[trigger]
            call_ensures(hash_number::<H>, (b.id, fed), ()) && *fed == before && *final(fed)
                == after),
{
}

} // verus!
