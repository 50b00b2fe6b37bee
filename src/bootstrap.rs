use vstd::prelude::*;

use crate::error::RippleError;
use crate::extn_id::{is_device_channel_spec, parse_extn_id, ExtnId, ExtnIdView};
use crate::extn_state::{channel_symbols, symbols_view, ExtnState, LoadedLibrary, PreLoadedExtnChannel};
use crate::manifest::{metadata_ids, ExtnSymbol, ExtnSymbolView};

verus! {

/// The channel symbols of one library, as `get_channels` returns them.
pub open spec fn lib_channels<H>(lib: LoadedLibrary<H>) -> Seq<ExtnSymbolView> {
    channel_symbols(metadata_ids(lib.metadata.symbols@), symbols_view(lib.entry.symbols@))
}

/// The channel symbols of all libraries, library after library.
pub open spec fn discovered<H>(libs: Seq<LoadedLibrary<H>>) -> Seq<ExtnSymbolView>
    decreases libs.len(),
{
    if libs.len() == 0 {
        Seq::empty()
    } else {
        discovered(libs.drop_last()) + lib_channels(libs.last())
    }
}

/// For each discovered channel, the index of the library it came from.
pub open spec fn discovered_owners<H>(libs: Seq<LoadedLibrary<H>>) -> Seq<int>
    decreases libs.len(),
{
    if libs.len() == 0 {
        Seq::empty()
    } else {
        discovered_owners(libs.drop_last()) + Seq::new(
            lib_channels(libs.last()).len(),
            |k: int| libs.len() - 1,
        )
    }
}

pub open spec fn plan_owners(p: Seq<ChannelPlan>) -> Seq<int> {
    p.map_values(|c: ChannelPlan| c.library as int)
}

/// A channel symbol found in a loaded library, with its parsed id: what is
/// handed to the library's channel builder.
#[derive(Debug)]
pub struct ChannelPlan {
    pub library: usize,
    pub extn_id: ExtnId,
    pub symbol: ExtnSymbol,
}

pub open spec fn plan_symbols(p: Seq<ChannelPlan>) -> Seq<ExtnSymbolView> {
    p.map_values(|c: ChannelPlan| c.symbol@)
}

/// What a built channel is in the registry: its id, its symbol and the channel object.
pub open spec fn built_view<C>(plans: Seq<ChannelPlan>, built: Seq<Option<C>>) -> Seq<
    (ExtnIdView, ExtnSymbolView, C),
> {
    Seq::new(plans.len(), |k: int| (plans[k].extn_id@, plans[k].symbol@, built[k]->0))
}

pub open spec fn batch_view<C>(b: Seq<PreLoadedExtnChannel<C>>) -> Seq<
    (ExtnIdView, ExtnSymbolView, C),
> {
    b.map_values(|p: PreLoadedExtnChannel<C>| (p.extn_id@, p.symbol@, p.channel))
}

pub open spec fn is_device_entry<C>(t: (ExtnIdView, ExtnSymbolView, C)) -> bool {
    is_device_channel_spec(t.0)
}

pub open spec fn is_deferred_entry<C>(t: (ExtnIdView, ExtnSymbolView, C)) -> bool {
    !is_device_channel_spec(t.0)
}

/// The bootstrap step that turns loaded libraries into built channels, in two
/// batches: the device channel, started first, and the deferred channels.
pub struct LoadExtensionsStep;

impl LoadExtensionsStep {
    pub fn get_name(&self) -> (r: String)
        ensures
            r@ == "LoadExtensionsStep"@,
    {
        String::from_str("LoadExtensionsStep")
    }

    /// Lists every channel symbol of every loaded library with its parsed id.
    /// One id that cannot be parsed fails the whole step.
    pub fn plan<H, C, L, O>(state: &ExtnState<H, C, L, O>) -> (r: Result<Vec<ChannelPlan>, RippleError>)
        ensures
            r is Ok <==> forall|k: int|
                0 <= k < discovered(state.loaded_libraries@).len() ==> (#[trigger] parse_extn_id(
                    discovered(state.loaded_libraries@)[k].id,
                )) is Some,
            r matches Err(e) ==> e == RippleError::BootstrapError,
            r matches Ok(p) ==> {
                &&& plan_symbols(p@) == discovered(state.loaded_libraries@)
                &&& plan_owners(p@) == discovered_owners(state.loaded_libraries@)
                &&& forall|k: int|
                    0 <= k < p@.len() ==> parse_extn_id((#[trigger] p@[k]).symbol@.id) == Some(
                        p@[k].extn_id@,
                    )
            },
    {
        let ghost libs = state.loaded_libraries@;
        let mut plans: Vec<ChannelPlan> = Vec::new();
        let mut i: usize = 0;
        while i < state.loaded_libraries.len()
            invariant
                i <= libs.len(),
                libs == state.loaded_libraries@,
                plan_symbols(plans@) == discovered(libs.subrange(0, i as int)),
                plan_owners(plans@) == discovered_owners(libs.subrange(0, i as int)),
                forall|k: int|
                    0 <= k < plans@.len() ==> parse_extn_id((#[trigger] plans@[k]).symbol@.id)
                        == Some(plans@[k].extn_id@),
            decreases libs.len() - i,
        {
            let lib = &state.loaded_libraries[i];
            let channels = lib.get_channels();
            let ghost prefix = plan_symbols(plans@);
            let ghost owners = plan_owners(plans@);
            proof {
                assert(libs.subrange(0, i + 1).drop_last() =~= libs.subrange(0, i as int));
                assert(libs.subrange(0, i + 1).last() == libs[i as int]);
                assert(discovered(libs.subrange(0, i + 1)) == prefix + lib_channels(libs[i as int]));
                assert(discovered_owners(libs.subrange(0, i + 1)) == owners + Seq::new(
                    lib_channels(libs[i as int]).len(),
                    |k: int| i as int,
                ));
            }
            let mut j: usize = 0;
            while j < channels.len()
                invariant
                    i < libs.len(),
                    libs == state.loaded_libraries@,
                    *lib == libs[i as int],
                    j <= channels@.len(),
                    symbols_view(channels@) == lib_channels(libs[i as int]),
                    prefix == discovered(libs.subrange(0, i as int)),
                    discovered(libs.subrange(0, i + 1)) == prefix + symbols_view(channels@),
                    plan_symbols(plans@) == prefix + symbols_view(channels@).subrange(0, j as int),
                    owners == discovered_owners(libs.subrange(0, i as int)),
                    discovered_owners(libs.subrange(0, i + 1)) == owners + Seq::new(
                        symbols_view(channels@).len(),
                        |k: int| i as int,
                    ),
                    plan_owners(plans@) == owners + Seq::new(j as nat, |k: int| i as int),
                    forall|k: int|
                        0 <= k < plans@.len() ==> parse_extn_id((#[trigger] plans@[k]).symbol@.id)
                            == Some(plans@[k].extn_id@),
                decreases channels@.len() - j,
            {
                let sym = &channels[j];
                let ghost sv = symbols_view(channels@);
                assert(sv[j as int] == sym@);
                match ExtnId::try_from(sym.id.as_str()) {
                    Ok(extn_id) => {
                        let ghost before = plans@;
                        plans.push(ChannelPlan { library: i, extn_id, symbol: sym.clone() });
                        proof {
                            assert(plans@.last().library == i);
                            assert(plan_owners(plans@) =~= plan_owners(before).push(i as int));
                            assert(plan_owners(plans@) =~= owners + Seq::new(
                                (j + 1) as nat,
                                |k: int| i as int,
                            ));
                            assert(plan_symbols(plans@) =~= plan_symbols(before).push(sym@));
                            assert(sv.subrange(0, j + 1) =~= sv.subrange(0, j as int).push(sym@));
                        }
                    },
                    Err(_) => {
                        proof {
                            let all = discovered(libs);
                            let k = prefix.len() + j;
                            lemma_discovered_prefix(libs, i as int + 1);
                            assert(discovered(libs.subrange(0, i + 1)) == prefix + sv);
                            assert(all[k] == sv[j as int]);
                            assert(parse_extn_id(all[k].id) is None);
                        }
                        return Err(RippleError::BootstrapError);
                    },
                }
                j = j + 1;
            }
            proof {
                assert(symbols_view(channels@).subrange(0, j as int) =~= symbols_view(channels@));
                assert(plan_owners(plans@) =~= discovered_owners(libs.subrange(0, i + 1)));
            }
            i = i + 1;
        }
        proof {
            assert(libs.subrange(0, i as int) =~= libs);
            assert forall|k: int|
                0 <= k < discovered(libs).len() implies (#[trigger] parse_extn_id(
                discovered(libs)[k].id,
            )) is Some by {
                assert(plan_symbols(plans@)[k] == plans@[k].symbol@);
            }
        }
        Ok(plans)
    }

    /// Records the built channels in the registry, the device channel in the
    /// device batch and every other in the deferred batch, keeping their order.
    /// `built[k]` is what the builder made of `plans[k]`; one channel that
    /// could not be built fails the whole step and changes nothing.
    pub fn setup<H, C, L, O>(
        state: &mut ExtnState<H, C, L, O>,
        plans: Vec<ChannelPlan>,
        built: Vec<Option<C>>,
    ) -> (r: Result<(), RippleError>)
        requires
            old(state).wf(),
            plans@.len() == built@.len(),
        ensures
            final(state).wf(),
            final(state).statuses() == old(state).statuses(),
            final(state).listeners() == old(state).listeners(),
            final(state).loaded_libraries == old(state).loaded_libraries,
            final(state).sender == old(state).sender,
            r is Err <==> exists|k: int| 0 <= k < built@.len() && (#[trigger] built@[k]) is None,
            r matches Err(e) ==> e == RippleError::BootstrapError
                && final(state).device_channels == old(state).device_channels
                && final(state).deferred_channels == old(state).deferred_channels,
            r is Ok ==> batch_view(final(state).device_channels@) == batch_view(
                old(state).device_channels@,
            ) + built_view(plans@, built@).filter(|t| is_device_entry::<C>(t)),
            r is Ok ==> batch_view(final(state).deferred_channels@) == batch_view(
                old(state).deferred_channels@,
            ) + built_view(plans@, built@).filter(|t| is_deferred_entry::<C>(t)),
    {
        let mut k: usize = 0;
        while k < built.len()
            invariant
                k <= built@.len(),
                forall|m: int| 0 <= m < k ==> (#[trigger] built@[m]) is Some,
                *state == *old(state),
                state.wf(),
            decreases built@.len() - k,
        {
            if built[k].is_none() {
                return Err(RippleError::BootstrapError);
            }
            k = k + 1;
        }
        let ghost all = built_view(plans@, built@);
        let ghost dev0 = batch_view(state.device_channels@);
        let ghost def0 = batch_view(state.deferred_channels@);
        let ghost dev_pred = |t| is_device_entry::<C>(t);
        let ghost def_pred = |t| is_deferred_entry::<C>(t);
        let n = built.len();
        let mut plans = plans;
        let mut built = built;
        let ghost plans0 = plans@;
        let ghost built0 = built@;
        let mut i: usize = 0;
        while i < n
            invariant
                i <= n,
                n == plans0.len(),
                n == built0.len(),
                all == built_view(plans0, built0),
                forall|m: int| 0 <= m < n ==> (#[trigger] built0[m]) is Some,
                plans@ == plans0.subrange(i as int, n as int),
                built@ == built0.subrange(i as int, n as int),
                state.wf(),
                state.statuses() == old(state).statuses(),
                state.listeners() == old(state).listeners(),
                state.loaded_libraries == old(state).loaded_libraries,
                state.sender == old(state).sender,
                dev_pred == (|t| is_device_entry::<C>(t)),
                def_pred == (|t| is_deferred_entry::<C>(t)),
                batch_view(state.device_channels@) == dev0 + all.subrange(0, i as int).filter(
                    dev_pred,
                ),
                batch_view(state.deferred_channels@) == def0 + all.subrange(0, i as int).filter(
                    def_pred,
                ),
            decreases n - i,
        {
            let plan = plans.remove(0);
            let slot = built.remove(0);
            proof {
                reveal(Seq::filter);
                assert(all.subrange(0, i + 1).drop_last() =~= all.subrange(0, i as int));
                assert(plan == plans0[i as int]);
                assert(slot == built0[i as int]);
                assert(plans@ =~= plans0.subrange(i + 1, n as int));
                assert(built@ =~= built0.subrange(i + 1, n as int));
            }
            let channel = match slot {
                Some(c) => c,
                None => {
                    proof {
                        assert(built0[i as int] is Some);
                    }
                    return Err(RippleError::BootstrapError);
                },
            };
            let ChannelPlan { library: _, extn_id, symbol } = plan;
            let is_device = extn_id.is_device_channel();
            let pre = PreLoadedExtnChannel { channel, extn_id, symbol };
            let ghost entry = (pre.extn_id@, pre.symbol@, pre.channel);
            assert(all[i as int] == entry);
            if is_device {
                let ghost before = state.device_channels@;
                state.device_channels.push(pre);
                proof {
                    assert(batch_view(state.device_channels@) =~= batch_view(before).push(entry));
                }
            } else {
                let ghost before = state.deferred_channels@;
                state.deferred_channels.push(pre);
                proof {
                    assert(batch_view(state.deferred_channels@) =~= batch_view(before).push(entry));
                }
            }
            i = i + 1;
        }
        proof {
            assert(all.subrange(0, n as int) =~= all);
        }
        Ok(())
    }
}

/// The channels of the first `n` libraries come first among all discovered channels.
proof fn lemma_discovered_prefix<H>(libs: Seq<LoadedLibrary<H>>, n: int)
    requires
        0 <= n <= libs.len(),
    ensures
        discovered(libs.subrange(0, n)).len() <= discovered(libs).len(),
        forall|k: int|
            0 <= k < discovered(libs.subrange(0, n)).len() ==> #[trigger] discovered(libs)[k]
                == discovered(libs.subrange(0, n))[k],
    decreases libs.len(),
{
    if n < libs.len() {
        lemma_discovered_prefix(libs.drop_last(), n);
        assert(libs.drop_last().subrange(0, n) =~= libs.subrange(0, n));
    } else {
        assert(libs.subrange(0, n) =~= libs);
    }
}

/// A filter and its complement split a sequence: each element goes to exactly
/// one side, and together the two sides hold every element as often as the
/// sequence does.
pub proof fn lemma_filter_partition<A>(s: Seq<A>, p: spec_fn(A) -> bool, q: spec_fn(A) -> bool)
    requires
        forall|x: A| #[trigger] q(x) == !p(x),
    ensures
        s.filter(p).to_multiset().add(s.filter(q).to_multiset()) == s.to_multiset(),
        s.filter(p).len() + s.filter(q).len() == s.len(),
        forall|x: A| s.filter(p).contains(x) ==> p(x),
        forall|x: A| s.filter(q).contains(x) ==> !p(x),
    decreases s.len(),
{
    broadcast use vstd::seq_lib::group_to_multiset_ensures;
    broadcast use vstd::multiset::group_multiset_axioms;

    broadcast use vstd::seq_lib::group_filter_ensures;

    reveal(Seq::filter);
    if s.len() == 0 {
        assert(s.filter(p).to_multiset().add(s.filter(q).to_multiset()) =~= s.to_multiset());
    } else {
        let t = s.drop_last();
        let x = s.last();
        lemma_filter_partition(t, p, q);
        assert(s =~= t.push(x));
        assert(s.filter(p).to_multiset().add(s.filter(q).to_multiset()) =~= s.to_multiset());
    }
}

/// Bootstrap sorts the built channels into two disjoint batches whose union
/// is every built channel: the device batch holds exactly the device
/// channels, the deferred batch every other one, each channel in one batch.
pub proof fn lemma_bootstrap_partition<C>(all: Seq<(ExtnIdView, ExtnSymbolView, C)>)
    ensures
        all.filter(|t| is_device_entry::<C>(t)).to_multiset().add(
            all.filter(|t| is_deferred_entry::<C>(t)).to_multiset(),
        ) == all.to_multiset(),
        all.filter(|t| is_device_entry::<C>(t)).len() + all.filter(
            |t| is_deferred_entry::<C>(t),
        ).len() == all.len(),
        forall|t: (ExtnIdView, ExtnSymbolView, C)|
            all.filter(|t| is_device_entry::<C>(t)).contains(t) ==> is_device_channel_spec(t.0),
        forall|t: (ExtnIdView, ExtnSymbolView, C)|
            all.filter(|t| is_deferred_entry::<C>(t)).contains(t) ==> !is_device_channel_spec(
                t.0,
            ),
{
    lemma_filter_partition(all, |t| is_device_entry::<C>(t), |t| is_deferred_entry::<C>(t));
}

} // verus!
