use vstd::prelude::*;

use crate::extn_id::{extn_id_text, is_channel_spec, is_extn_spec, ExtnId, ExtnIdView};
use crate::manifest::{contains_string, metadata_ids, strings_view, ExtnManifestEntry, ExtnMetadata, ExtnSymbol, ExtnSymbolView};
use crate::table::Table;

verus! {

/// How far an extension has come in starting up.
#[derive(Debug, Clone, Copy, PartialEq, Eq, Structural)]
pub enum ExtnStatus {
    Unknown,
    Initializing,
    Ready,
}

/// The id is known to the map and is `Ready` there.
pub open spec fn ready_in(m: Map<Seq<char>, ExtnStatus>, key: Seq<char>) -> bool {
    m.contains_key(key) && m[key] == ExtnStatus::Ready
}

/// The first symbol of `syms` whose id text is `id`.
pub open spec fn first_with_id(syms: Seq<ExtnSymbolView>, id: Seq<char>) -> Option<ExtnSymbolView>
    decreases syms.len(),
{
    if syms.len() == 0 {
        None
    } else if syms[0].id == id {
        Some(syms[0])
    } else {
        first_with_id(syms.drop_first(), id)
    }
}

/// A plain extension id that the manifest also names.
pub open spec fn declared_extn(id: ExtnIdView, syms: Seq<ExtnSymbolView>) -> bool {
    is_extn_spec(id) && first_with_id(syms, extn_id_text(id)) is Some
}

/// The texts of the channel ids that the metadata declares, each once, in
/// the order of their first appearance.
pub open spec fn channel_texts(ids: Seq<ExtnIdView>) -> Seq<Seq<char>>
    decreases ids.len(),
{
    if ids.len() == 0 {
        Seq::empty()
    } else {
        let rest = channel_texts(ids.drop_last());
        let m = ids.last();
        if is_channel_spec(m) && !rest.contains(extn_id_text(m)) {
            rest.push(extn_id_text(m))
        } else {
            rest
        }
    }
}

/// The symbols of `syms` with the id text `id`, in order.
pub open spec fn symbols_with_id(syms: Seq<ExtnSymbolView>, id: Seq<char>) -> Seq<ExtnSymbolView> {
    syms.filter(|s: ExtnSymbolView| s.id == id)
}

/// For each text of `texts` in turn, every symbol of `syms` with that id text.
pub open spec fn gather_symbols(texts: Seq<Seq<char>>, syms: Seq<ExtnSymbolView>) -> Seq<
    ExtnSymbolView,
>
    decreases texts.len(),
{
    if texts.len() == 0 {
        Seq::empty()
    } else {
        gather_symbols(texts.drop_last(), syms) + symbols_with_id(syms, texts.last())
    }
}

/// The manifest symbols of the channels that the metadata declares: for each
/// distinct channel id in metadata order, every manifest symbol with that id
/// text, in manifest order. Channels the manifest does not name give nothing.
pub open spec fn channel_symbols(ids: Seq<ExtnIdView>, syms: Seq<ExtnSymbolView>) -> Seq<
    ExtnSymbolView,
> {
    gather_symbols(channel_texts(ids), syms)
}

pub open spec fn symbols_view(v: Seq<ExtnSymbol>) -> Seq<ExtnSymbolView> {
    v.map_values(|s: ExtnSymbol| s@)
}

pub open spec fn ids_view(v: Seq<ExtnId>) -> Seq<ExtnIdView> {
    v.map_values(|s: ExtnId| s@)
}

/// A library opened from a manifest entry, with the metadata it exported.
/// `H` is the handle that keeps the library loaded.
#[derive(Debug)]
pub struct LoadedLibrary<H> {
    pub library: H,
    pub metadata: ExtnMetadata,
    pub entry: ExtnManifestEntry,
}

impl<H> LoadedLibrary<H> {
    pub fn new(library: H, metadata: ExtnMetadata, entry: ExtnManifestEntry) -> (r: LoadedLibrary<
        H,
    >)
        ensures
            r.library == library,
            r.metadata == metadata,
            r.entry == entry,
    {
        LoadedLibrary { library, metadata, entry }
    }

    /// The first symbol of the manifest entry with the id text `text`.
    fn find_symbol(&self, text: &String) -> (r: Option<usize>)
        ensures
            match r {
                Some(j) => j < self.entry.symbols@.len() && first_with_id(
                    symbols_view(self.entry.symbols@),
                    text@,
                ) == Some(self.entry.symbols@[j as int]@),
                None => first_with_id(symbols_view(self.entry.symbols@), text@) is None,
            },
    {
        let ghost all = symbols_view(self.entry.symbols@);
        let n = self.entry.symbols.len();
        proof {
            assert(all.subrange(0, n as int) =~= all);
        }
        let mut j: usize = 0;
        while j < n
            invariant
                n == self.entry.symbols@.len(),
                all == symbols_view(self.entry.symbols@),
                j <= n,
                first_with_id(all, text@) == first_with_id(all.subrange(j as int, n as int), text@),
            decreases n - j,
        {
            let ghost rest = all.subrange(j as int, n as int);
            proof {
                assert(rest[0] == self.entry.symbols@[j as int]@);
                assert(rest.drop_first() =~= all.subrange(j + 1, n as int));
            }
            if self.entry.symbols[j].id == *text {
                return Some(j);
            }
            j = j + 1;
        }
        None
    }

    /// The texts of the channel ids that the metadata declares, each once.
    fn channel_id_texts(&self) -> (r: Vec<String>)
        ensures
            strings_view(r@) == channel_texts(metadata_ids(self.metadata.symbols@)),
    {
        let ghost ids = metadata_ids(self.metadata.symbols@);
        let mut r: Vec<String> = Vec::new();
        let mut i: usize = 0;
        while i < self.metadata.symbols.len()
            invariant
                i <= self.metadata.symbols@.len(),
                ids == metadata_ids(self.metadata.symbols@),
                strings_view(r@) == channel_texts(ids.subrange(0, i as int)),
            decreases self.metadata.symbols@.len() - i,
        {
            proof {
                assert(ids.subrange(0, i + 1).drop_last() =~= ids.subrange(0, i as int));
                assert(ids.subrange(0, i + 1).last() == ids[i as int]);
            }
            let id = &self.metadata.symbols[i].id;
            assert(ids[i as int] == id@);
            if id.is_channel() {
                let text = id.to_string();
                if !contains_string(&r, &text) {
                    let ghost before = r@;
                    r.push(text);
                    proof {
                        assert(strings_view(r@) =~= strings_view(before).push(extn_id_text(id@)));
                    }
                }
            }
            i = i + 1;
        }
        proof {
            assert(ids.subrange(0, i as int) =~= ids);
        }
        r
    }

    /// The manifest symbols of the channels that the library declares: for
    /// each distinct channel id in the order of the library's metadata, every
    /// symbol of the manifest entry with that id, in the manifest's order.
    pub fn get_channels(&self) -> (r: Vec<ExtnSymbol>)
        ensures
            symbols_view(r@) == channel_symbols(
                metadata_ids(self.metadata.symbols@),
                symbols_view(self.entry.symbols@),
            ),
    {
        let texts = self.channel_id_texts();
        let ghost tv = strings_view(texts@);
        let ghost syms = symbols_view(self.entry.symbols@);
        let mut r: Vec<ExtnSymbol> = Vec::new();
        let mut k: usize = 0;
        while k < texts.len()
            invariant
                k <= texts@.len(),
                tv == strings_view(texts@),
                tv == channel_texts(metadata_ids(self.metadata.symbols@)),
                syms == symbols_view(self.entry.symbols@),
                symbols_view(r@) == gather_symbols(tv.subrange(0, k as int), syms),
            decreases texts@.len() - k,
        {
            let text = &texts[k];
            let ghost t = text@;
            assert(tv[k as int] == t);
            let ghost pred = |s: ExtnSymbolView| s.id == t;
            let ghost base = symbols_view(r@);
            let mut j: usize = 0;
            while j < self.entry.symbols.len()
                invariant
                    j <= self.entry.symbols@.len(),
                    syms == symbols_view(self.entry.symbols@),
                    t == text@,
                    pred == (|s: ExtnSymbolView| s.id == t),
                    symbols_view(r@) == base + syms.subrange(0, j as int).filter(pred),
                decreases self.entry.symbols@.len() - j,
            {
                proof {
                    reveal(Seq::filter);
                    assert(syms.subrange(0, j + 1).drop_last() =~= syms.subrange(0, j as int));
                    assert(syms[j as int] == self.entry.symbols@[j as int]@);
                }
                if self.entry.symbols[j].id == *text {
                    let ghost before = r@;
                    let sym = self.entry.symbols[j].clone();
                    r.push(sym);
                    proof {
                        assert(symbols_view(r@) =~= symbols_view(before).push(sym@));
                    }
                }
                j = j + 1;
            }
            proof {
                assert(syms.subrange(0, j as int) =~= syms);
                let tk = tv.subrange(0, k + 1);
                assert(tk.drop_last() =~= tv.subrange(0, k as int));
                assert(tk.last() == t);
            }
            k = k + 1;
        }
        proof {
            assert(tv.subrange(0, k as int) =~= tv);
        }
        r
    }

    /// The ids that the library declares as plain extensions and the
    /// manifest entry also names, in the order of the library's metadata.
    pub fn get_extns(&self) -> (r: Vec<ExtnId>)
        ensures
            ids_view(r@) == metadata_ids(self.metadata.symbols@).filter(
                |id: ExtnIdView| declared_extn(id, symbols_view(self.entry.symbols@)),
            ),
    {
        let ghost pred = |id: ExtnIdView| declared_extn(id, symbols_view(self.entry.symbols@));
        let ghost all = metadata_ids(self.metadata.symbols@);
        let mut r: Vec<ExtnId> = Vec::new();
        let mut i: usize = 0;
        while i < self.metadata.symbols.len()
            invariant
                i <= self.metadata.symbols@.len(),
                all == metadata_ids(self.metadata.symbols@),
                pred == (|id: ExtnIdView| declared_extn(id, symbols_view(self.entry.symbols@))),
                ids_view(r@) == all.subrange(0, i as int).filter(pred),
            decreases self.metadata.symbols@.len() - i,
        {
            proof {
                reveal(Seq::filter);
                assert(all.subrange(0, i + 1).drop_last() =~= all.subrange(0, i as int));
            }
            let id = &self.metadata.symbols[i].id;
            if id.is_extn() && self.find_symbol(&id.to_string()).is_some() {
                let ghost before = r@;
                r.push(id.clone());
                proof {
                    assert(ids_view(r@) =~= ids_view(before).push(id@));
                }
            }
            i = i + 1;
        }
        proof {
            assert(all.subrange(0, i as int) =~= all);
        }
        r
    }

    pub fn get_metadata(&self) -> (r: &ExtnMetadata)
        ensures
            *r == self.metadata,
    {
        &self.metadata
    }
}

/// A channel that has been built but not started yet. `C` is the channel
/// object that the library's builder returned.
#[derive(Debug)]
pub struct PreLoadedExtnChannel<C> {
    pub channel: C,
    pub extn_id: ExtnId,
    pub symbol: ExtnSymbol,
}

/// The extension registry: the loaded libraries, the built channels in their
/// two batches, the readiness of each extension, and the one-shot listeners
/// waiting for a status change. `L` is the listener's handle, and `O` the
/// gateway's outbound sender that every started channel is given.
pub struct ExtnState<H, C, L, O> {
    pub sender: O,
    pub loaded_libraries: Vec<LoadedLibrary<H>>,
    pub device_channels: Vec<PreLoadedExtnChannel<C>>,
    pub deferred_channels: Vec<PreLoadedExtnChannel<C>>,
    pub extn_status_map: Table<String, ExtnStatus>,
    pub extn_status_listeners: Table<String, L>,
}

impl<H, C, L, O> ExtnState<H, C, L, O> {
    pub open spec fn wf(&self) -> bool {
        self.extn_status_map.wf() && self.extn_status_listeners.wf()
    }

    /// The stored status of each extension, keyed by the id's text.
    pub open spec fn statuses(&self) -> Map<Seq<char>, ExtnStatus> {
        self.extn_status_map@
    }

    /// The registered listener of each extension, keyed by the id's text.
    pub open spec fn listeners(&self) -> Map<Seq<char>, L> {
        self.extn_status_listeners@
    }

    pub fn new(sender: O) -> (r: Self)
        ensures
            r.wf(),
            r.sender == sender,
            r.statuses() == Map::<Seq<char>, ExtnStatus>::empty(),
            r.listeners() == Map::<Seq<char>, L>::empty(),
            r.loaded_libraries@.len() == 0,
            r.device_channels@.len() == 0,
            r.deferred_channels@.len() == 0,
    {
        ExtnState {
            sender,
            loaded_libraries: Vec::new(),
            device_channels: Vec::new(),
            deferred_channels: Vec::new(),
            extn_status_map: Table::new(),
            extn_status_listeners: Table::new(),
        }
    }

    /// The gateway's outbound sender, for a channel that is being started.
    pub fn get_sender(&self) -> (r: &O)
        ensures
            *r == self.sender,
    {
        &self.sender
    }

    /// Overwrites the stored status of `id`: the last write wins.
    pub fn update_extn_status(&mut self, id: ExtnId, status: ExtnStatus)
        requires
            old(self).wf(),
        ensures
            final(self).wf(),
            final(self).statuses() == old(self).statuses().insert(extn_id_text(id@), status),
            final(self).listeners() == old(self).listeners(),
            final(self).sender == old(self).sender,
            final(self).loaded_libraries == old(self).loaded_libraries,
            final(self).device_channels == old(self).device_channels,
            final(self).deferred_channels == old(self).deferred_channels,
    {
        self.extn_status_map.insert(id.to_string(), status);
    }

    /// True exactly when the stored status of `extn_id` is `Ready`; an id
    /// with no stored status is not ready.
    pub fn is_extn_ready(&self, extn_id: ExtnId) -> (r: bool)
        requires
            self.wf(),
        ensures
            r == ready_in(self.statuses(), extn_id_text(extn_id@)),
    {
        match self.extn_status_map.get(&extn_id.to_string()) {
            Some(status) => *status == ExtnStatus::Ready,
            None => false,
        }
    }

    /// Registers `sender` to hear of the next status change of `id`. When the
    /// extension is already ready, nothing is registered and the result is
    /// true: the caller must not wait for a notification then.
    pub fn add_extn_status_listener(&mut self, id: ExtnId, sender: L) -> (r: bool)
        requires
            old(self).wf(),
        ensures
            final(self).wf(),
            r == ready_in(old(self).statuses(), extn_id_text(id@)),
            r ==> final(self).listeners() == old(self).listeners(),
            !r ==> final(self).listeners() == old(self).listeners().insert(
                extn_id_text(id@),
                sender,
            ),
            final(self).statuses() == old(self).statuses(),
            final(self).sender == old(self).sender,
            final(self).loaded_libraries == old(self).loaded_libraries,
            final(self).device_channels == old(self).device_channels,
            final(self).deferred_channels == old(self).deferred_channels,
    {
        if self.is_extn_ready(id.clone()) {
            return true;
        }
        self.extn_status_listeners.insert(id.to_string(), sender);
        false
    }

    pub fn get_extn_status_listener(&self, id: ExtnId) -> (r: Option<&L>)
        requires
            self.wf(),
        ensures
            match r {
                Some(l) => self.listeners().contains_key(extn_id_text(id@)) && *l
                    == self.listeners()[extn_id_text(id@)],
                None => !self.listeners().contains_key(extn_id_text(id@)),
            },
    {
        self.extn_status_listeners.get(&id.to_string())
    }

    /// Removes the listener of `extn_id`, once it has been notified.
    pub fn clear_status_listener(&mut self, extn_id: ExtnId)
        requires
            old(self).wf(),
        ensures
            final(self).wf(),
            final(self).listeners() == old(self).listeners().remove(extn_id_text(extn_id@)),
            final(self).statuses() == old(self).statuses(),
            final(self).sender == old(self).sender,
            final(self).loaded_libraries == old(self).loaded_libraries,
            final(self).device_channels == old(self).device_channels,
            final(self).deferred_channels == old(self).deferred_channels,
    {
        let _ = self.extn_status_listeners.remove(&extn_id.to_string());
    }
}

} // verus!

verus! {

/// Marking an extension ready leaves it ready however often it is repeated,
/// and the status map keeps only the last write: after any earlier write,
/// the extension is ready exactly when the last status written is `Ready`.
pub proof fn lemma_status_last_write_wins(
    statuses: Map<Seq<char>, ExtnStatus>,
    id: ExtnIdView,
    first: ExtnStatus,
    last: ExtnStatus,
)
    ensures
        ready_in(statuses.insert(extn_id_text(id), ExtnStatus::Ready), extn_id_text(id)),
        statuses.insert(extn_id_text(id), ExtnStatus::Ready).insert(
            extn_id_text(id),
            ExtnStatus::Ready,
        ) == statuses.insert(extn_id_text(id), ExtnStatus::Ready),
        ready_in(statuses.insert(extn_id_text(id), first).insert(extn_id_text(id), last), extn_id_text(id))
            == (last == ExtnStatus::Ready),
{
    let k = extn_id_text(id);
    assert(statuses.insert(k, ExtnStatus::Ready).insert(k, ExtnStatus::Ready) =~= statuses.insert(
        k,
        ExtnStatus::Ready,
    ));
}

} // verus!
