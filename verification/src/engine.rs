use vstd::prelude::*;

verus! {

/// A module that an engine is built from.
#[derive(Debug, Clone, Copy, PartialEq, Eq, Structural)]
pub enum Capability {
    /// Console output.
    Console,
    /// Conversions between script values and Web IDL types.
    WebIdl,
    /// URL parsing.
    Url,
    /// Timers, blobs and streams.
    Web,
    /// Random values, digests and the subtle operations.
    Crypto,
    /// HTTP fetch.
    Fetch,
    /// TCP and the other raw networking.
    Net,
    /// The WebSocket client.
    WebSocket,
    /// This library's own module: the delay operation and the start-up
    /// scripts.
    Pjs,
}

/// The order in which the modules of an engine are registered.
pub open spec fn registration_order() -> Seq<Capability> {
    seq![
        Capability::Console,
        Capability::WebIdl,
        Capability::Url,
        Capability::Web,
        Capability::Crypto,
        Capability::Fetch,
        Capability::Net,
        Capability::WebSocket,
        Capability::Pjs,
    ]
}

/// The modules that this library's own module declares as its dependencies.
pub open spec fn own_dependencies() -> Seq<Capability> {
    seq![Capability::Url, Capability::Web, Capability::WebSocket, Capability::Crypto]
}

/// `order` registers each module at most once, this library's own module
/// last, and every module that it depends on before it.
pub open spec fn well_wired(order: Seq<Capability>) -> bool {
    &&& order.no_duplicates()
    &&& order.len() > 0
    &&& order.last() == Capability::Pjs
    &&& forall|d: int|
        0 <= d < own_dependencies().len() ==> exists|i: int|
            0 <= i < order.len() - 1 && order[i] == #[trigger] own_dependencies()[d]
}

/// The registration order is well wired.
pub proof fn lemma_registration_order_well_wired()
    ensures
        well_wired(registration_order()),
{
    let order = registration_order();
    let needed = own_dependencies();
    assert(order.len() == 9);
    assert(order.last() == Capability::Pjs);
    assert forall|d: int| 0 <= d < needed.len() implies exists|i: int|
        0 <= i < order.len() - 1 && order[i] == #[trigger] needed[d] by {
        if d == 0 {
            assert(order[2] == needed[0]);
        } else if d == 1 {
            assert(order[3] == needed[1]);
        } else if d == 2 {
            assert(order[7] == needed[2]);
        } else {
            assert(order[4] == needed[3]);
        }
    }
}

/// The modules of an engine, in the order in which they are registered.
pub fn extension_order() -> (order: Vec<Capability>)
    ensures
        order@ == registration_order(),
        well_wired(order@),
{
    let order = vec![
        Capability::Console,
        Capability::WebIdl,
        Capability::Url,
        Capability::Web,
        Capability::Crypto,
        Capability::Fetch,
        Capability::Net,
        Capability::WebSocket,
        Capability::Pjs,
    ];
    proof {
        assert(order@ =~= registration_order());
        lemma_registration_order_well_wired();
    }
    order
}

/// The name under which the fetch and WebSocket modules present themselves.
pub fn user_agent() -> (agent: &'static str)
    ensures
        agent@ == "zombienet-agent"@,
{
    "zombienet-agent"
}

} // verus!
