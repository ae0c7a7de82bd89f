//! The provider router: registered vendors, the selection strategy
//! (explicit, sticky default, round robin) and the capability check made
//! before dispatch.
use vstd::prelude::*;
use crate::adapters::assemblyai::AssemblyAIAdapter;
use crate::adapters::deepgram::DeepgramAdapter;
use crate::adapters::gladia::GladiaAdapter;
use crate::adapters::{check_config, AdapterError, ProviderConfig};
use crate::text::{join, owned};
use crate::types::{ProviderCapabilities, TranscriptionProvider};

verus! {

/// How a vendor is chosen when the caller names none.
#[derive(Debug, Clone, Copy, PartialEq, Eq, Structural, Default)]
pub enum SelectionStrategy {
    /// The caller must always name the vendor.
    Explicit,
    /// The configured default vendor.
    #[default]
    Default,
    /// The registered vendors in turn.
    RoundRobin,
}

/// Vendor configurations, one per vendor, in order of insertion.
#[derive(Debug, Clone)]
pub struct ProviderMap {
    entries: Vec<(TranscriptionProvider, ProviderConfig)>,
}

/// The vendors of a list of entries, in order.
pub open spec fn keys_of(entries: Seq<(TranscriptionProvider, ProviderConfig)>) -> Seq<TranscriptionProvider> {
    entries.map_values(|e: (TranscriptionProvider, ProviderConfig)| e.0)
}

/// No vendor occurs twice.
pub open spec fn unique(ps: Seq<TranscriptionProvider>) -> bool {
    forall|i: int, j: int| 0 <= i < j < ps.len() ==> ps[i] != ps[j]
}

impl ProviderMap {
    /// The entries, in order of insertion.
    pub closed spec fn entries(self) -> Seq<(TranscriptionProvider, ProviderConfig)> {
        self.entries@
    }

    /// An empty map.
    pub fn new() -> (r: ProviderMap)
        ensures
            r.entries() == Seq::<(TranscriptionProvider, ProviderConfig)>::empty(),
    {
        let r = ProviderMap { entries: Vec::new() };
        assert(keys_of(r.entries@) =~= Seq::<TranscriptionProvider>::empty());
        r
    }

    /// Sets the configuration of a vendor: an existing entry keeps its place
    /// and takes the new configuration; a new vendor goes last.
    pub fn insert(&mut self, provider: TranscriptionProvider, config: ProviderConfig)
        ensures
            keys_of(old(self).entries()).contains(provider) ==> keys_of(final(self).entries()) == keys_of(
                old(self).entries(),
            ) && exists|i: int| 0 <= i < old(self).entries().len() && old(self).entries()[i].0 == provider
                && final(self).entries() == old(self).entries().update(i, (provider, config)),
            !keys_of(old(self).entries()).contains(provider) ==> final(self).entries() == old(self).entries().push(
                (provider, config),
            ),
    {
        let mut i: usize = 0;
        while i < self.entries.len()
            invariant
                0 <= i <= self.entries@.len(),
                self.entries@ == old(self).entries@,
                forall|k: int| 0 <= k < i ==> (#[trigger] self.entries@[k]).0 != provider,
            decreases self.entries@.len() - i,
        {
            if self.entries[i].0 == provider {
                let ghost before = self.entries@;
                self.entries.set(i, (provider, config));
                proof {
                    assert(keys_of(self.entries@) =~= keys_of(before));
                    assert(keys_of(before)[i as int] == provider);
                }
                return;
            }
            i += 1;
        }
        let ghost before = self.entries@;
        proof {
            assert forall|k: int| 0 <= k < keys_of(before).len() implies keys_of(before)[k] != provider by {
                assert(keys_of(before)[k] == before[k].0);
            }
        }
        self.entries.push((provider, config));
        proof {
            assert(keys_of(self.entries@) =~= keys_of(before).push(provider));
        }
    }

    /// The configuration of a vendor, if it has one.
    pub fn get(&self, provider: TranscriptionProvider) -> (r: Option<&ProviderConfig>)
        ensures
            r is Some <==> keys_of(self.entries()).contains(provider),
            r matches Some(c) ==> exists|i: int| 0 <= i < self.entries().len() && self.entries()[i].0 == provider
                && self.entries()[i].1 == *c,
    {
        let mut i: usize = 0;
        while i < self.entries.len()
            invariant
                0 <= i <= self.entries@.len(),
                forall|k: int| 0 <= k < i ==> (#[trigger] self.entries@[k]).0 != provider,
            decreases self.entries@.len() - i,
        {
            if self.entries[i].0 == provider {
                assert(keys_of(self.entries@)[i as int] == provider);
                let c = &self.entries[i].1;
                assert(self.entries()[i as int].0 == provider && self.entries()[i as int].1 == *c);
                return Some(c);
            }
            i += 1;
        }
        assert forall|k: int| 0 <= k < keys_of(self.entries@).len() implies keys_of(self.entries@)[k] != provider by {
            assert(keys_of(self.entries@)[k] == self.entries@[k].0);
        }
        None
    }

    /// Number of vendors.
    pub fn len(&self) -> (r: usize)
        ensures
            r == self.entries().len(),
    {
        self.entries.len()
    }

    /// Whether no vendor is configured.
    pub fn is_empty(&self) -> (r: bool)
        ensures
            r == (self.entries().len() == 0),
    {
        self.entries.len() == 0
    }

    /// The vendors, in order of insertion.
    pub fn keys(&self) -> (r: Vec<TranscriptionProvider>)
        ensures
            r@ == keys_of(self.entries()),
    {
        let mut out: Vec<TranscriptionProvider> = Vec::new();
        let mut i: usize = 0;
        while i < self.entries.len()
            invariant
                0 <= i <= self.entries@.len(),
                out@ == keys_of(self.entries@.subrange(0, i as int)),
            decreases self.entries@.len() - i,
        {
            out.push(self.entries[i].0);
            i += 1;
            assert(keys_of(self.entries@.subrange(0, i as int)) =~= keys_of(self.entries@.subrange(0, i - 1)).push(
                self.entries@[i - 1].0,
            ));
        }
        assert(self.entries@.subrange(0, self.entries@.len() as int) =~= self.entries@);
        out
    }
}

/// The configuration a router is built from.
#[derive(Debug, Clone)]
pub struct VoiceRouterConfig {
    pub providers: ProviderMap,
    pub default_provider: Option<TranscriptionProvider>,
    pub selection_strategy: SelectionStrategy,
}

impl Default for VoiceRouterConfig {
    fn default() -> (r: VoiceRouterConfig)
        ensures
            r.providers.entries().len() == 0,
            r.default_provider is None,
            r.selection_strategy == SelectionStrategy::Default,
    {
        VoiceRouterConfig {
            providers: ProviderMap::new(),
            default_provider: None,
            selection_strategy: SelectionStrategy::Default,
        }
    }
}

/// A vendor the router can dispatch to.
#[derive(Debug, Clone, Copy, PartialEq, Eq, Structural)]
pub struct RegisteredAdapter {
    pub provider: TranscriptionProvider,
    pub capabilities: ProviderCapabilities,
}

/// The router.
#[derive(Debug, Clone)]
pub struct VoiceRouter {
    adapters: Vec<RegisteredAdapter>,
    config: VoiceRouterConfig,
    round_robin_index: u64,
}

/// The variant name of a vendor, as written in messages.
pub open spec fn provider_label(p: TranscriptionProvider) -> Seq<char> {
    match p {
        TranscriptionProvider::Gladia => "Gladia"@,
        TranscriptionProvider::AssemblyAI => "AssemblyAI"@,
        TranscriptionProvider::Deepgram => "Deepgram"@,
        TranscriptionProvider::AzureStt => "AzureStt"@,
        TranscriptionProvider::OpenAIWhisper => "OpenAIWhisper"@,
        TranscriptionProvider::Speechmatics => "Speechmatics"@,
    }
}

/// The names of the vendors, separated by `, `.
pub open spec fn labels_joined(ps: Seq<TranscriptionProvider>) -> Seq<char>
    decreases ps.len(),
{
    if ps.len() == 0 {
        Seq::empty()
    } else if ps.len() == 1 {
        provider_label(ps[0])
    } else {
        labels_joined(ps.drop_last()) + ", "@ + provider_label(ps.last())
    }
}

/// The message for a vendor that is not registered; it lists the
/// registered ones.
pub open spec fn not_registered_message(p: TranscriptionProvider, registered: Seq<TranscriptionProvider>) -> Seq<char> {
    "Provider '"@ + provider_label(p) + "' is not registered. Available providers: ["@ + labels_joined(
        registered,
    ) + "]"@
}

/// The built-in capabilities of a vendor that has an adapter.
pub open spec fn builtin_capabilities(p: TranscriptionProvider) -> Option<ProviderCapabilities> {
    let all = ProviderCapabilities {
        streaming: true,
        diarization: true,
        word_timestamps: true,
        language_detection: true,
        custom_vocabulary: true,
        summarization: true,
        sentiment_analysis: true,
        entity_detection: true,
        pii_redaction: true,
    };
    match p {
        TranscriptionProvider::Gladia => Some(ProviderCapabilities { pii_redaction: false, ..all }),
        TranscriptionProvider::AssemblyAI => Some(all),
        TranscriptionProvider::Deepgram => Some(all),
        _ => None,
    }
}

/// The vendor chosen by round robin for a counter value.
pub open spec fn round_robin_pick(registered: Seq<TranscriptionProvider>, counter: int) -> TranscriptionProvider {
    registered[counter % (registered.len() as int)]
}

pub(crate) fn label(p: TranscriptionProvider) -> (r: &'static str)
    ensures
        r@ == provider_label(p),
{
    match p {
        TranscriptionProvider::Gladia => "Gladia",
        TranscriptionProvider::AssemblyAI => "AssemblyAI",
        TranscriptionProvider::Deepgram => "Deepgram",
        TranscriptionProvider::AzureStt => "AzureStt",
        TranscriptionProvider::OpenAIWhisper => "OpenAIWhisper",
        TranscriptionProvider::Speechmatics => "Speechmatics",
    }
}

/// The capabilities of the built-in adapter of a vendor, if it has one.
pub fn capabilities_of(p: TranscriptionProvider) -> (r: Option<ProviderCapabilities>)
    ensures
        r == builtin_capabilities(p),
{
    match p {
        TranscriptionProvider::Gladia => Some(GladiaAdapter::new().capabilities()),
        TranscriptionProvider::AssemblyAI => Some(AssemblyAIAdapter::new().capabilities()),
        TranscriptionProvider::Deepgram => Some(DeepgramAdapter::new().capabilities()),
        _ => None,
    }
}

fn listed(ps: &Vec<TranscriptionProvider>) -> (r: String)
    ensures
        r@ == labels_joined(ps@),
{
    let mut out = String::new();
    let mut i: usize = 0;
    while i < ps.len()
        invariant
            0 <= i <= ps@.len(),
            out@ == labels_joined(ps@.subrange(0, i as int)),
        decreases ps@.len() - i,
    {
        let ghost prefix = ps@.subrange(0, i + 1);
        assert(prefix.drop_last() =~= ps@.subrange(0, i as int));
        if i == 0 {
            out = owned(label(ps[i]));
        } else {
            out = join(join(out, ", "), label(ps[i]));
        }
        i += 1;
    }
    assert(ps@.subrange(0, ps@.len() as int) =~= ps@);
    out
}

fn is_registered(adapters: &Vec<RegisteredAdapter>, p: TranscriptionProvider) -> (r: bool)
    ensures
        r == providers_of(adapters@).contains(p),
{
    let mut i: usize = 0;
    while i < adapters.len()
        invariant
            0 <= i <= adapters@.len(),
            forall|k: int| 0 <= k < i ==> (#[trigger] adapters@[k]).provider != p,
        decreases adapters@.len() - i,
    {
        if adapters[i].provider == p {
            assert(providers_of(adapters@)[i as int] == p);
            return true;
        }
        i += 1;
    }
    assert forall|k: int| 0 <= k < providers_of(adapters@).len() implies providers_of(adapters@)[k] != p by {
        assert(providers_of(adapters@)[k] == adapters@[k].provider);
    }
    false
}

/// The registered vendors of a list of adapters.
pub open spec fn providers_of(adapters: Seq<RegisteredAdapter>) -> Seq<TranscriptionProvider> {
    adapters.map_values(|a: RegisteredAdapter| a.provider)
}

/// What building a router from a configuration gives. With no vendor
/// configured it is refused. Each configured vendor that has a built-in
/// adapter and a credential is registered, and only those. Under the
/// default strategy without a default, the first registered vendor becomes
/// the default.
pub open spec fn built_from(config: VoiceRouterConfig, r: Result<VoiceRouter, AdapterError>) -> bool {
    &&& (r is Err <==> config.providers.entries().len() == 0)
    &&& (r is Err ==> (r matches Err(AdapterError::InvalidConfig(m))
        && m@ == "VoiceRouter requires at least one provider configuration"@))
    &&& (r matches Ok(router) ==> ({
        let entries = config.providers.entries();
        &&& router.well_formed()
        &&& router.counter() == 0
        &&& router.strategy() == config.selection_strategy
        &&& router.configured() == keys_of(entries)
        &&& router.default_choice() == (if config.selection_strategy == SelectionStrategy::Default
            && config.default_provider is None {
            if router.registered().len() > 0 { Some(router.registered()[0].provider) } else { None }
        } else {
            config.default_provider
        })
        &&& forall|i: int| 0 <= i < router.registered().len() ==> ({
            let a = #[trigger] router.registered()[i];
            &&& builtin_capabilities(a.provider) == Some(a.capabilities)
            &&& exists|j: int| 0 <= j < entries.len() && entries[j].0 == a.provider && entries[j].1.api_key@.len() > 0
        })
        &&& forall|i: int| 0 <= i < entries.len() && builtin_capabilities(#[trigger] entries[i].0) is Some
            && entries[i].1.api_key@.len() > 0 ==> providers_of(router.registered()).contains(entries[i].0)
    }))
}

impl VoiceRouter {
    /// The registered adapters, in order of registration.
    pub closed spec fn registered(&self) -> Seq<RegisteredAdapter> {
        self.adapters@
    }

    /// The vendors configured for this router.
    pub closed spec fn configured(&self) -> Seq<TranscriptionProvider> {
        keys_of(self.config.providers.entries())
    }

    /// The default vendor of the configuration (possibly chosen at
    /// construction).
    pub closed spec fn default_choice(&self) -> Option<TranscriptionProvider> {
        self.config.default_provider
    }

    /// The selection strategy.
    pub closed spec fn strategy(&self) -> SelectionStrategy {
        self.config.selection_strategy
    }

    /// The shared round-robin counter.
    pub closed spec fn counter(&self) -> nat {
        self.round_robin_index as nat
    }

    /// The registered vendors, in order.
    pub open spec fn registered_providers(&self) -> Seq<TranscriptionProvider> {
        providers_of(self.registered())
    }

    /// Each vendor is registered once.
    pub closed spec fn well_formed(&self) -> bool {
        unique(providers_of(self.adapters@))
    }

    /// The vendor `select_provider` picks, if it picks one: a named vendor
    /// when registered; otherwise the default, or the registered vendor at
    /// the counter under round robin.
    pub open spec fn selection(&self, preferred: Option<TranscriptionProvider>) -> Option<TranscriptionProvider> {
        match preferred {
            Some(p) => if self.registered_providers().contains(p) { Some(p) } else { None },
            None => match self.strategy() {
                SelectionStrategy::Explicit => None,
                SelectionStrategy::Default => self.default_choice(),
                SelectionStrategy::RoundRobin => if self.registered().len() > 0 {
                    Some(round_robin_pick(self.registered_providers(), self.counter() as int))
                } else {
                    None
                },
            },
        }
    }

    /// The round-robin counter after a selection.
    pub open spec fn counter_after(&self, preferred: Option<TranscriptionProvider>) -> nat {
        if preferred is None && self.strategy() == SelectionStrategy::RoundRobin && self.registered().len() > 0 {
            (self.counter() + 1) % 0x1_0000_0000_0000_0000
        } else {
            self.counter()
        }
    }

    /// A router over the configured vendors; see `built_from`.
    pub fn new(config: VoiceRouterConfig) -> (r: Result<VoiceRouter, AdapterError>)
        ensures
            built_from(config, r),
    {
        if config.providers.is_empty() {
            return Err(AdapterError::InvalidConfig(owned("VoiceRouter requires at least one provider configuration")));
        }
        let mut config = config;
        let mut adapters: Vec<RegisteredAdapter> = Vec::new();
        let n = config.providers.entries.len();
        let ghost entries = config.providers.entries@;
        let mut i: usize = 0;
        while i < n
            invariant
                0 <= i <= n,
                n == entries.len(),
                entries == config.providers.entries@,
                unique(providers_of(adapters@)),
                forall|k: int| 0 <= k < adapters@.len() ==> ({
                    let a = #[trigger] adapters@[k];
                    &&& builtin_capabilities(a.provider) == Some(a.capabilities)
                    &&& exists|j: int| 0 <= j < i && entries[j].0 == a.provider && entries[j].1.api_key@.len() > 0
                }),
                forall|j: int| 0 <= j < i && builtin_capabilities(#[trigger] entries[j].0) is Some
                    && entries[j].1.api_key@.len() > 0 ==> providers_of(adapters@).contains(entries[j].0),
            decreases n - i,
        {
            let provider = config.providers.entries[i].0;
            let ready = check_config(&config.providers.entries[i].1);
            if let Some(capabilities) = capabilities_of(provider) {
                if ready.is_ok() && !is_registered(&adapters, provider) {
                    let ghost before = adapters@;
                    adapters.push(RegisteredAdapter { provider, capabilities });
                    proof {
                        assert(providers_of(adapters@) =~= providers_of(before).push(provider));
                        assert forall|x: int, y: int| 0 <= x < y < providers_of(adapters@).len() implies
                            providers_of(adapters@)[x] != providers_of(adapters@)[y] by {
                            if y == before.len() {
                                assert(providers_of(before)[x] == providers_of(adapters@)[x]);
                            }
                        }
                        assert forall|k: int| 0 <= k < adapters@.len() implies ({
                            let a = #[trigger] adapters@[k];
                            &&& builtin_capabilities(a.provider) == Some(a.capabilities)
                            &&& exists|j: int| 0 <= j < i + 1 && entries[j].0 == a.provider
                                && entries[j].1.api_key@.len() > 0
                        }) by {
                            if k < before.len() {
                                assert(adapters@[k] == before[k]);
                            } else {
                                assert(entries[i as int].0 == adapters@[k].provider);
                            }
                        }
                        assert forall|j: int| 0 <= j < i + 1 && builtin_capabilities(#[trigger] entries[j].0) is Some
                            && entries[j].1.api_key@.len() > 0 implies providers_of(adapters@).contains(entries[j].0) by {
                            if j < i {
                                assert(providers_of(before).contains(entries[j].0));
                                let x = choose|x: int| 0 <= x < providers_of(before).len() && providers_of(before)[x] == entries[j].0;
                                assert(providers_of(adapters@)[x] == entries[j].0);
                            } else {
                                assert(providers_of(adapters@)[before.len() as int] == entries[j].0);
                            }
                        }
                    }
                }
            }
            i += 1;
        }
        if config.selection_strategy == SelectionStrategy::Default && config.default_provider.is_none() {
            config.default_provider = if adapters.len() > 0 {
                Some(adapters[0].provider)
            } else {
                None
            };
        }
        Ok(VoiceRouter { adapters, config, round_robin_index: 0 })
    }

    /// Registers an adapter for a configured vendor, in place of an earlier
    /// one; a vendor that is not configured is ignored.
    pub fn register_adapter(&mut self, provider: TranscriptionProvider, capabilities: ProviderCapabilities)
        requires
            old(self).well_formed(),
        ensures
            final(self).well_formed(),
            final(self).counter() == old(self).counter(),
            final(self).strategy() == old(self).strategy(),
            final(self).configured() == old(self).configured(),
            final(self).default_choice() == old(self).default_choice(),
            !old(self).configured().contains(provider) ==> final(self).registered() == old(self).registered(),
            old(self).configured().contains(provider) ==> final(self).registered_providers().contains(provider)
                && forall|i: int| 0 <= i < final(self).registered().len()
                && (#[trigger] final(self).registered()[i]).provider == provider
                ==> final(self).registered()[i].capabilities == capabilities,
    {
        let keys = self.config.providers.keys();
        let mut configured = false;
        let mut i: usize = 0;
        while i < keys.len()
            invariant
                0 <= i <= keys@.len(),
                configured == exists|k: int| 0 <= k < i && keys@[k] == provider,
            decreases keys@.len() - i,
        {
            if keys[i] == provider {
                configured = true;
            }
            i += 1;
        }
        proof {
            if !configured {
                assert forall|k: int| 0 <= k < self.configured().len() implies self.configured()[k] != provider by {
                    assert(keys@[k] == self.configured()[k]);
                }
            } else {
                let k = choose|k: int| 0 <= k < keys@.len() && keys@[k] == provider;
                assert(self.configured()[k] == provider);
                assert(old(self).configured().contains(provider));
            }
        }
        if !configured {
            return;
        }
        let mut j: usize = 0;
        while j < self.adapters.len()
            invariant
                0 <= j <= self.adapters@.len(),
                self.adapters@ == old(self).adapters@,
                self.config == old(self).config,
                self.round_robin_index == old(self).round_robin_index,
                old(self).configured().contains(provider),
                unique(providers_of(self.adapters@)),
                forall|k: int| 0 <= k < j ==> (#[trigger] self.adapters@[k]).provider != provider,
            decreases self.adapters@.len() - j,
        {
            if self.adapters[j].provider == provider {
                let ghost before = self.adapters@;
                self.adapters.set(j, RegisteredAdapter { provider, capabilities });
                proof {
                    assert(providers_of(self.adapters@) =~= providers_of(before));
                    assert(providers_of(self.adapters@)[j as int] == provider);
                    assert forall|i: int| 0 <= i < self.adapters@.len() && (#[trigger] self.adapters@[i]).provider
                        == provider implies self.adapters@[i].capabilities == capabilities by {
                        if i != j {
                            assert(providers_of(before)[i] == providers_of(before)[j as int]);
                        }
                    }
                }
                return;
            }
            j += 1;
        }
        let ghost before = self.adapters@;
        self.adapters.push(RegisteredAdapter { provider, capabilities });
        proof {
            assert(providers_of(self.adapters@) =~= providers_of(before).push(provider));
            assert(providers_of(self.adapters@)[before.len() as int] == provider);
            assert forall|i: int| 0 <= i < self.adapters@.len() && (#[trigger] self.adapters@[i]).provider
                == provider implies self.adapters@[i].capabilities == capabilities by {
                if i < before.len() {
                    assert(self.adapters@[i] == before[i]);
                }
            }
        }
    }

    /// The registered adapter of a vendor, or an error listing the
    /// registered vendors.
    pub fn get_adapter(&self, provider: TranscriptionProvider) -> (r: Result<RegisteredAdapter, AdapterError>)
        ensures
            r is Ok <==> self.registered_providers().contains(provider),
            r matches Ok(a) ==> a.provider == provider && self.registered().contains(a),
            r is Err ==> (r matches Err(AdapterError::InvalidConfig(m))
                && m@ == not_registered_message(provider, self.registered_providers())),
    {
        let mut i: usize = 0;
        while i < self.adapters.len()
            invariant
                0 <= i <= self.adapters@.len(),
                forall|k: int| 0 <= k < i ==> (#[trigger] self.adapters@[k]).provider != provider,
            decreases self.adapters@.len() - i,
        {
            if self.adapters[i].provider == provider {
                proof {
                    assert(self.registered_providers()[i as int] == provider);
                }
                return Ok(self.adapters[i]);
            }
            i += 1;
        }
        proof {
            assert forall|k: int| 0 <= k < self.registered_providers().len() implies self.registered_providers()[k]
                != provider by {
                assert(self.registered_providers()[k] == self.adapters@[k].provider);
            }
        }
        Err(AdapterError::InvalidConfig(self.not_registered(provider)))
    }

    fn not_registered(&self, provider: TranscriptionProvider) -> (r: String)
        ensures
            r@ == not_registered_message(provider, self.registered_providers()),
    {
        let registered = self.get_registered_providers();
        let m = join(owned("Provider '"), label(provider));
        let m = join(m, "' is not registered. Available providers: [");
        let m = join(m, listed(&registered).as_str());
        join(m, "]")
    }

    /// Chooses the vendor of a request. A named vendor must be registered.
    /// Otherwise: the explicit strategy fails; the default strategy gives the
    /// default vendor; round robin gives the registered vendor at the shared
    /// counter modulo their number, and advances the counter.
    pub fn select_provider(&mut self, preferred: Option<TranscriptionProvider>) -> (r: Result<
        TranscriptionProvider,
        AdapterError,
    >)
        ensures
            final(self).registered() == old(self).registered(),
            final(self).configured() == old(self).configured(),
            final(self).default_choice() == old(self).default_choice(),
            final(self).strategy() == old(self).strategy(),
            final(self).well_formed() == old(self).well_formed(),
            preferred is Some ==> final(self).counter() == old(self).counter(),
            preferred is Some && old(self).registered_providers().contains(preferred->0) ==> r == Ok::<
                TranscriptionProvider,
                AdapterError,
            >(preferred->0),
            preferred is Some && !old(self).registered_providers().contains(preferred->0) ==> (r matches Err(AdapterError::InvalidConfig(m))
                && m@ == not_registered_message(preferred->0, old(self).registered_providers())),
            preferred is None && old(self).strategy() == SelectionStrategy::Explicit ==> final(self).counter()
                == old(self).counter() && (r matches Err(AdapterError::InvalidConfig(m)) && m@
                == "Provider must be explicitly specified when using 'explicit' selection strategy"@),
            preferred is None && old(self).strategy() == SelectionStrategy::Default ==> final(self).counter()
                == old(self).counter() && (if old(self).default_choice() is Some {
                r == Ok::<TranscriptionProvider, AdapterError>(old(self).default_choice()->0)
            } else {
                r matches Err(AdapterError::InvalidConfig(m)) && m@ == "No default provider configured"@
            }),
            preferred is None && old(self).strategy() == SelectionStrategy::RoundRobin ==> (
            if old(self).registered().len() > 0 {
                &&& r == Ok::<TranscriptionProvider, AdapterError>(
                    round_robin_pick(old(self).registered_providers(), old(self).counter() as int),
                )
                &&& final(self).counter() == (old(self).counter() + 1) % 0x1_0000_0000_0000_0000
            } else {
                &&& final(self).counter() == old(self).counter()
                &&& r matches Err(AdapterError::InvalidConfig(m)) && m@ == "No providers are registered"@
            }),
    {
        if let Some(provider) = preferred {
            return match self.get_adapter(provider) {
                Ok(_) => Ok(provider),
                Err(e) => Err(e),
            };
        }
        match self.config.selection_strategy {
            SelectionStrategy::Explicit => Err(
                AdapterError::InvalidConfig(
                    owned("Provider must be explicitly specified when using 'explicit' selection strategy"),
                ),
            ),
            SelectionStrategy::RoundRobin => {
                let n = self.adapters.len();
                if n == 0 {
                    return Err(AdapterError::InvalidConfig(owned("No providers are registered")));
                }
                let index = self.round_robin_index;
                self.round_robin_index = index.wrapping_add(1);
                let k = (index % (n as u64)) as usize;
                proof {
                    assert(self.registered_providers()[k as int] == self.adapters@[k as int].provider);
                }
                Ok(self.adapters[k].provider)
            },
            SelectionStrategy::Default => match self.config.default_provider {
                Some(p) => Ok(p),
                None => Err(AdapterError::InvalidConfig(owned("No default provider configured"))),
            },
        }
    }

    /// Chooses the vendor of a streaming request and checks, before any
    /// network attempt, that it streams.
    pub fn transcribe_stream_with_provider(&mut self, provider: Option<TranscriptionProvider>) -> (r: Result<
        RegisteredAdapter,
        AdapterError,
    >)
        requires
            old(self).well_formed(),
        ensures
            final(self).registered() == old(self).registered(),
            final(self).configured() == old(self).configured(),
            final(self).default_choice() == old(self).default_choice(),
            final(self).strategy() == old(self).strategy(),
            final(self).well_formed(),
            final(self).counter() == old(self).counter_after(provider),
            old(self).selection(provider) is None ==> r is Err,
            old(self).selection(provider) matches Some(p) ==> ({
                &&& (r is Ok <==> exists|a: RegisteredAdapter| old(self).registered().contains(a) && a.provider == p
                    && a.capabilities.streaming)
                &&& (r matches Ok(a) ==> a.provider == p && a.capabilities.streaming && old(self).registered().contains(a))
                &&& ((exists|a: RegisteredAdapter| old(self).registered().contains(a) && a.provider == p
                    && !a.capabilities.streaming) ==> (r matches Err(AdapterError::NotSupported(m)) && m@
                    == "Provider '"@ + provider_label(p) + "' does not support streaming transcription"@))
            }),
    {
        let ghost regs = self.registered();
        let chosen = match self.select_provider(provider) {
            Ok(p) => p,
            Err(e) => {
                return Err(e);
            },
        };
        assert(old(self).selection(provider) == Some(chosen));
        let adapter = match self.get_adapter(chosen) {
            Ok(a) => a,
            Err(e) => {
                proof {
                    assert forall|a: RegisteredAdapter| regs.contains(a) implies a.provider != chosen by {
                        lemma_listed(regs, a);
                    }
                }
                return Err(e);
            },
        };
        proof {
            assert forall|a: RegisteredAdapter| regs.contains(a) && a.provider == chosen implies a == adapter by {
                lemma_same_provider(regs, a, adapter);
            }
        }
        if !adapter.capabilities.streaming {
            let m = join(owned("Provider '"), label(adapter.provider));
            return Err(AdapterError::NotSupported(join(m, "' does not support streaming transcription")));
        }
        Ok(adapter)
    }

    /// Capabilities of a registered vendor.
    pub fn get_provider_capabilities(&self, provider: TranscriptionProvider) -> (r: Option<ProviderCapabilities>)
        ensures
            r is Some <==> self.registered_providers().contains(provider),
            r matches Some(c) ==> self.registered().contains(RegisteredAdapter { provider, capabilities: c }),
    {
        match self.get_adapter(provider) {
            Ok(a) => Some(a.capabilities),
            Err(_) => None,
        }
    }

    /// The registered vendors, in order.
    pub fn get_registered_providers(&self) -> (r: Vec<TranscriptionProvider>)
        ensures
            r@ == self.registered_providers(),
    {
        let mut out: Vec<TranscriptionProvider> = Vec::new();
        let mut i: usize = 0;
        while i < self.adapters.len()
            invariant
                0 <= i <= self.adapters@.len(),
                out@ == providers_of(self.adapters@.subrange(0, i as int)),
            decreases self.adapters@.len() - i,
        {
            out.push(self.adapters[i].provider);
            i += 1;
            assert(providers_of(self.adapters@.subrange(0, i as int)) =~= providers_of(
                self.adapters@.subrange(0, i - 1),
            ).push(self.adapters@[i - 1].provider));
        }
        assert(self.adapters@.subrange(0, self.adapters@.len() as int) =~= self.adapters@);
        out
    }

    /// The default vendor, or else the first registered one.
    pub fn default_provider(&self) -> (r: Option<TranscriptionProvider>)
        ensures
            self.default_choice() is Some ==> r == self.default_choice(),
            self.default_choice() is None && self.registered().len() > 0 ==> r == Some(
                self.registered()[0].provider,
            ),
            self.default_choice() is None && self.registered().len() == 0 ==> r is None,
    {
        match self.config.default_provider {
            Some(p) => Some(p),
            None => if self.adapters.len() > 0 {
                Some(self.adapters[0].provider)
            } else {
                None
            },
        }
    }
}

proof fn lemma_listed(regs: Seq<RegisteredAdapter>, a: RegisteredAdapter)
    requires
        regs.contains(a),
    ensures
        providers_of(regs).contains(a.provider),
{
    let i = choose|i: int| 0 <= i < regs.len() && regs[i] == a;
    assert(providers_of(regs)[i] == a.provider);
}

proof fn lemma_same_provider(regs: Seq<RegisteredAdapter>, a: RegisteredAdapter, b: RegisteredAdapter)
    requires
        unique(providers_of(regs)),
        regs.contains(a),
        regs.contains(b),
        a.provider == b.provider,
    ensures
        a == b,
{
    let i = choose|i: int| 0 <= i < regs.len() && regs[i] == a;
    let j = choose|j: int| 0 <= j < regs.len() && regs[j] == b;
    assert(providers_of(regs)[i] == a.provider);
    assert(providers_of(regs)[j] == b.provider);
}

/// Builds a router; see `VoiceRouter::new`.
pub fn create_voice_router(config: VoiceRouterConfig) -> (r: Result<VoiceRouter, AdapterError>)
    ensures
        built_from(config, r),
{
    VoiceRouter::new(config)
}

/// Round robin visits the registered vendors in order from a fresh
/// counter, and repeats them with a period of their number: with vendors
/// A, B, C, six selections give A, B, C, A, B, C.
pub proof fn lemma_round_robin_cycles(registered: Seq<TranscriptionProvider>, counter: nat)
    requires
        registered.len() > 0,
    ensures
        forall|k: int| 0 <= k < registered.len() ==> #[trigger] round_robin_pick(registered, k) == registered[k],
        round_robin_pick(registered, (counter + registered.len()) as int) == round_robin_pick(
            registered,
            counter as int,
        ),
{
    let n = registered.len() as int;
    assert forall|k: int| 0 <= k < n implies #[trigger] round_robin_pick(registered, k) == registered[k] by {
        vstd::arithmetic::div_mod::lemma_small_mod(k as nat, n as nat);
    }
    vstd::arithmetic::div_mod::lemma_mod_add_multiples_vanish(counter as int, n);
}

/// The refusal of an unregistered vendor lists the registered ones, just
/// before its closing bracket.
pub proof fn lemma_refusal_lists_registered(p: TranscriptionProvider, registered: Seq<TranscriptionProvider>)
    requires
        !registered.contains(p),
    ensures
        not_registered_message(p, registered).subrange(
            not_registered_message(p, registered).len() - labels_joined(registered).len() - 1,
            not_registered_message(p, registered).len() - 1,
        ) == labels_joined(registered),
{
    let prefix = "Provider '"@ + provider_label(p) + "' is not registered. Available providers: ["@;
    let m = not_registered_message(p, registered);
    assert(m == prefix + labels_joined(registered) + "]"@);
    reveal_strlit("]");
    assert(m.subrange(prefix.len() as int, m.len() - 1) =~= labels_joined(registered));
}

} // verus!
