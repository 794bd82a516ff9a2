//! Symbol resolution and its cache.
//!
//! The dynamic loader is asked for a symbol at most once. The cache decides
//! when: [`SymbolCache::dispatch`] either hands back the address to call or
//! asks for the symbol to be looked up, and [`SymbolCache::resolve`] records
//! what the lookup found. The first address recorded for a symbol is the
//! one every later use gets.

use crate::host::HostCall;
use crate::symbol::{lemma_names_distinct, Symbol, SYMBOL_COUNT};
use vstd::prelude::*;

verus! {

/// The loader found no symbol of this name: the host is not the build this
/// layer was made for.
#[derive(Clone, Copy, Debug, PartialEq, Eq)]
pub struct Unresolved {
    pub symbol: Symbol,
}

/// Judges what the dynamic loader returned for `symbol` in the scope of the
/// running process: a null address means the symbol is missing.
pub fn dlsym_current(symbol: Symbol, found: usize) -> (address: Result<usize, Unresolved>)
    ensures
        address == (if found == 0 {
            Err(Unresolved { symbol })
        } else {
            Ok(found)
        }),
{
    if found == 0 {
        Err(Unresolved { symbol })
    } else {
        Ok(found)
    }
}

/// The number of entries of `slots` that hold an address.
pub open spec fn filled(slots: Seq<Option<usize>>) -> nat
    decreases slots.len(),
{
    if slots.len() == 0 {
        0
    } else {
        filled(slots.drop_last()) + (if slots.last() is Some { 1nat } else { 0nat })
    }
}

/// What the cache holds: for each symbol, by its position in the table, the
/// address it resolved to, if it has been resolved.
pub struct CacheState {
    pub slots: Seq<Option<usize>>,
}

/// One use of a symbol through the cache.
pub struct Access {
    /// The cache after the use.
    pub state: CacheState,
    /// The address to call, or the failure to find one.
    pub address: Result<usize, Unresolved>,
    /// Whether the loader was asked.
    pub looked_up: bool,
}

/// A call together with the address it goes to.
pub struct Invocation {
    pub address: usize,
    pub call: HostCall,
}

/// A run of calls served through the cache.
pub struct Served {
    /// The cache after the run.
    pub state: CacheState,
    /// The calls that went out, in order.
    pub invoked: Seq<Invocation>,
    /// How often the loader was asked.
    pub lookups: nat,
}

impl CacheState {
    /// One slot per symbol, and no null address.
    pub open spec fn wf(self) -> bool {
        &&& self.slots.len() == SYMBOL_COUNT
        &&& forall|i: int| 0 <= i < self.slots.len() ==> self.slots[i] != Some(0usize)
    }

    /// The address cached for `symbol`.
    pub open spec fn cached(self, symbol: Symbol) -> Option<usize> {
        self.slots[symbol.spec_index() as int]
    }

    /// The number of symbols resolved so far.
    pub open spec fn resolutions(self) -> nat {
        filled(self.slots)
    }

    /// Records that the loader returned `found` for `symbol`. An address
    /// already cached wins over `found`; a null `found` is a failure and
    /// records nothing.
    pub open spec fn resolve(self, symbol: Symbol, found: usize) -> (CacheState, Result<
        usize,
        Unresolved,
    >) {
        match self.cached(symbol) {
            Some(address) => (self, Ok(address)),
            None => if found == 0 {
                (self, Err(Unresolved { symbol }))
            } else {
                (
                    CacheState { slots: self.slots.update(symbol.spec_index() as int, Some(found)) },
                    Ok(found),
                )
            },
        }
    }

    /// One use of `symbol`: the cached address if there is one; else the
    /// loader is asked, returns `found`, and that is recorded.
    pub open spec fn access(self, symbol: Symbol, found: usize) -> Access {
        match self.cached(symbol) {
            Some(address) => Access { state: self, address: Ok(address), looked_up: false },
            None => Access {
                state: self.resolve(symbol, found).0,
                address: self.resolve(symbol, found).1,
                looked_up: true,
            },
        }
    }

    /// Serves `calls` in order, where `found[i]` is what the loader would
    /// return if it were asked at call `i`.
    pub open spec fn serve(self, calls: Seq<HostCall>, found: Seq<usize>) -> Served
        decreases calls.len(),
    {
        if calls.len() == 0 {
            Served { state: self, invoked: Seq::empty(), lookups: 0 }
        } else {
            let before = self.serve(calls.drop_last(), found);
            let last = calls.len() - 1;
            let step = before.state.access(calls[last].spec_symbol(), found[last]);
            Served {
                state: step.state,
                invoked: match step.address {
                    Ok(address) => before.invoked.push(Invocation { address, call: calls[last] }),
                    Err(_) => before.invoked,
                },
                lookups: before.lookups + (if step.looked_up { 1nat } else { 0nat }),
            }
        }
    }
}

/// Filling an empty slot adds one to the count of filled slots.
pub proof fn lemma_filled_update(slots: Seq<Option<usize>>, i: int, address: usize)
    requires
        0 <= i < slots.len(),
        slots[i] is None,
    ensures
        filled(slots.update(i, Some(address))) == filled(slots) + 1,
    decreases slots.len(),
{
    let after = slots.update(i, Some(address));
    if i == slots.len() - 1 {
        assert(after.drop_last() =~= slots.drop_last());
    } else {
        lemma_filled_update(slots.drop_last(), i, address);
        assert(after.drop_last() =~= slots.drop_last().update(i, Some(address)));
    }
}

/// Puts `address` into the slot at `index`.
fn store(slots: &mut Vec<Option<usize>>, index: usize, address: usize)
    requires
        index < old(slots)@.len(),
    ensures
        final(slots)@ == old(slots)@.update(index as int, Some(address)),
    no_unwind
{
    slots[index] = Some(address);
}

/// What a dispatch decides.
#[derive(Debug, PartialEq, Eq)]
pub enum Dispatch {
    /// The symbol is resolved: make `call` at `address`.
    Invoke { address: usize, call: HostCall },
    /// The symbol is not resolved yet: ask the loader for it, record the
    /// answer with [`SymbolCache::resolve`], and dispatch `call` again.
    Resolve { symbol: Symbol, call: HostCall },
}

/// The resolved-call cache.
pub struct SymbolCache {
    slots: Vec<Option<usize>>,
}

impl View for SymbolCache {
    type V = CacheState;

    closed spec fn view(&self) -> CacheState {
        CacheState { slots: self.slots@ }
    }
}

impl SymbolCache {
    #[verifier::type_invariant]
    spec fn well_formed(self) -> bool {
        self@.wf()
    }

    /// A cache in which nothing is resolved.
    pub fn new() -> (cache: SymbolCache)
        ensures
            cache@.wf(),
            cache@.resolutions() == 0,
            forall|symbol: Symbol| cache@.cached(symbol) is None,
    {
        let mut slots: Vec<Option<usize>> = Vec::new();
        let mut i: usize = 0;
        while i < SYMBOL_COUNT
            invariant
                i <= SYMBOL_COUNT,
                slots@.len() == i,
                forall|j: int| 0 <= j < i ==> slots@[j] is None,
                filled(slots@) == 0,
            decreases SYMBOL_COUNT - i,
        {
            let ghost before = slots@;
            slots.push(None);
            assert(slots@.drop_last() =~= before);
            i = i + 1;
        }
        SymbolCache { slots }
    }

    /// The address cached for `symbol`, if it has been resolved.
    pub fn get(&self, symbol: Symbol) -> (address: Option<usize>)
        ensures
            self@.wf(),
            address == self@.cached(symbol),
    {
        proof {
            use_type_invariant(self);
        }
        self.slots[symbol.index()]
    }

    /// The number of symbols resolved so far.
    pub fn resolutions(&self) -> (count: usize)
        ensures
            self@.wf(),
            count == self@.resolutions(),
    {
        proof {
            use_type_invariant(self);
        }
        let mut count: usize = 0;
        let mut i: usize = 0;
        assert(self.slots@.take(0) =~= Seq::<Option<usize>>::empty());
        while i < self.slots.len()
            invariant
                i <= self.slots@.len(),
                count == filled(self.slots@.take(i as int)),
                count <= i,
            decreases self.slots@.len() - i,
        {
            assert(self.slots@.take(i + 1).drop_last() =~= self.slots@.take(i as int));
            if self.slots[i].is_some() {
                count = count + 1;
            }
            i = i + 1;
        }
        assert(self.slots@.take(i as int) =~= self.slots@);
        count
    }

    /// Records that the loader returned `found` for `symbol`, and gives the
    /// address to use. The first address recorded for a symbol is kept: a
    /// later `found` is ignored. A null `found` for a symbol that is not
    /// cached is an error and records nothing.
    pub fn resolve(&mut self, symbol: Symbol, found: usize) -> (address: Result<usize, Unresolved>)
        ensures
            old(self)@.wf(),
            final(self)@.wf(),
            (final(self)@, address) == old(self)@.resolve(symbol, found),
    {
        proof {
            use_type_invariant(&*self);
        }
        let index = symbol.index();
        match self.slots[index] {
            Some(address) => Ok(address),
            None => match dlsym_current(symbol, found) {
                Err(e) => Err(e),
                Ok(address) => {
                    store(&mut self.slots, index, address);
                    Ok(address)
                },
            },
        }
    }

    /// Decides how `call` goes out: at the cached address of its symbol, or
    /// after a lookup. The call comes back as it was handed in.
    pub fn dispatch(&self, call: HostCall) -> (decision: Dispatch)
        ensures
            self@.wf(),
            decision == (match self@.cached(call.spec_symbol()) {
                Some(address) => Dispatch::Invoke { address, call },
                None => Dispatch::Resolve { symbol: call.spec_symbol(), call },
            }),
    {
        let symbol = call.symbol();
        match self.get(symbol) {
            Some(address) => Dispatch::Invoke { address, call },
            None => Dispatch::Resolve { symbol, call },
        }
    }
}

/// Recording a resolution keeps the cache well formed, touches no other
/// symbol, and raises the count of resolutions by one exactly when a new
/// address was stored.
pub proof fn lemma_resolve(state: CacheState, symbol: Symbol, found: usize)
    requires
        state.wf(),
    ensures
        state.resolve(symbol, found).0.wf(),
        forall|other: Symbol|
            other != symbol ==> #[trigger] state.resolve(symbol, found).0.cached(other)
                == state.cached(other),
        state.resolve(symbol, found).1 is Ok ==> state.resolve(symbol, found).0.cached(symbol)
            == Some(state.resolve(symbol, found).1->Ok_0),
        state.resolve(symbol, found).0.resolutions() == state.resolutions() + (if state.cached(
            symbol,
        ) is None && found != 0 {
            1nat
        } else {
            0nat
        }),
{
    if state.cached(symbol) is None && found != 0 {
        lemma_filled_update(state.slots, symbol.spec_index() as int, found);
    }
    assert forall|other: Symbol| other != symbol implies #[trigger] state.resolve(
        symbol,
        found,
    ).0.cached(other) == state.cached(other) by {
        lemma_names_distinct(other, symbol);
    }
}

/// Resolving is idempotent: once a use of a symbol has succeeded, the next
/// use gets the same address without asking the loader, whatever the loader
/// would return, and the cache does not change.
pub proof fn law_resolution_idempotent(
    state: CacheState,
    symbol: Symbol,
    first: usize,
    second: usize,
)
    requires
        state.wf(),
        state.access(symbol, first).address is Ok,
    ensures
        ({
            let once = state.access(symbol, first);
            let twice = once.state.access(symbol, second);
            &&& twice.address == once.address
            &&& !twice.looked_up
            &&& twice.state == once.state
            &&& twice.state.resolutions() == once.state.resolutions()
        }),
{
    lemma_resolve(state, symbol, first);
}

/// Any number of calls to one symbol ask the loader at most once, all go to
/// the same address, and each goes out as it came in.
pub proof fn law_served_once(
    state: CacheState,
    symbol: Symbol,
    calls: Seq<HostCall>,
    found: Seq<usize>,
)
    requires
        state.wf(),
        found.len() == calls.len(),
        forall|i: int| 0 <= i < calls.len() ==> (#[trigger] calls[i]).spec_symbol() == symbol,
        forall|i: int| 0 <= i < found.len() ==> #[trigger] found[i] != 0,
    ensures
        ({
            let served = state.serve(calls, found);
            &&& served.state.wf()
            &&& served.invoked.len() == calls.len()
            &&& forall|i: int| 0 <= i < calls.len() ==> (#[trigger] served.invoked[i]).call == calls[i]
            &&& forall|i: int, j: int|
                0 <= i < calls.len() && 0 <= j < calls.len() ==> (#[trigger] served.invoked[i]).address
                    == (#[trigger] served.invoked[j]).address
            &&& served.lookups == (if state.cached(symbol) is None && calls.len() > 0 {
                1nat
            } else {
                0nat
            })
            &&& served.state.resolutions() == state.resolutions() + served.lookups
            &&& calls.len() > 0 ==> forall|i: int|
                0 <= i < calls.len() ==> Some((#[trigger] served.invoked[i]).address)
                    == served.state.cached(symbol)
            &&& calls.len() == 0 ==> served.state == state
        }),
    decreases calls.len(),
{
    if calls.len() > 0 {
        let last = calls.len() - 1;
        let before = state.serve(calls.drop_last(), found);
        law_served_once(state, symbol, calls.drop_last(), found.drop_last());
        lemma_serve_ignores_rest(state, calls.drop_last(), found, found.drop_last());
        assert(calls[last].spec_symbol() == symbol);
        assert(found[last] != 0);
        lemma_resolve(before.state, symbol, found[last]);
        if last > 0 {
            assert(Some(before.invoked[0].address) == before.state.cached(symbol));
        }
        let served = state.serve(calls, found);
        let step = before.state.access(symbol, found[last]);
        assert(step.address is Ok);
        assert(served.state.cached(symbol) == Some(step.address->Ok_0));
        assert(served.invoked == before.invoked.push(
            Invocation { address: step.address->Ok_0, call: calls[last] },
        ));
        assert forall|i: int| 0 <= i < calls.len() implies (#[trigger] served.invoked[i]).call
            == calls[i] by {
            if i < last {
                assert(before.invoked[i].call == calls.drop_last()[i]);
            }
        }
        assert forall|i: int| 0 <= i < calls.len() implies Some(
            (#[trigger] served.invoked[i]).address,
        ) == served.state.cached(symbol) by {
            if i < last {
                assert(Some(before.invoked[i].address) == before.state.cached(symbol));
            }
        }
        assert forall|i: int, j: int| 0 <= i < calls.len() && 0 <= j < calls.len() implies (
        #[trigger] served.invoked[i]).address == (#[trigger] served.invoked[j]).address by {
            assert(Some(served.invoked[i].address) == served.state.cached(symbol));
            assert(Some(served.invoked[j].address) == served.state.cached(symbol));
        }
    }
}

/// Serving looks only at the loader's answers for the calls it serves.
pub proof fn lemma_serve_ignores_rest(
    state: CacheState,
    calls: Seq<HostCall>,
    found: Seq<usize>,
    other: Seq<usize>,
)
    requires
        calls.len() <= found.len(),
        calls.len() <= other.len(),
        forall|i: int| 0 <= i < calls.len() ==> found[i] == other[i],
    ensures
        state.serve(calls, found) == state.serve(calls, other),
    decreases calls.len(),
{
    if calls.len() > 0 {
        lemma_serve_ignores_rest(state, calls.drop_last(), found, other);
    }
}

} // verus!
