use voice_router::adapters::{AdapterError, ProviderConfig};
use voice_router::router::{ProviderMap, SelectionStrategy, VoiceRouter, VoiceRouterConfig};
use voice_router::types::TranscriptionProvider;

fn config(key: &str) -> ProviderConfig {
    ProviderConfig { api_key: key.into(), base_url: None, timeout_ms: None, headers: None }
}

fn three_vendors(strategy: SelectionStrategy) -> VoiceRouter {
    let mut providers = ProviderMap::new();
    providers.insert(TranscriptionProvider::Gladia, config("a"));
    providers.insert(TranscriptionProvider::AssemblyAI, config("b"));
    providers.insert(TranscriptionProvider::Deepgram, config("c"));
    VoiceRouter::new(VoiceRouterConfig { providers, default_provider: None, selection_strategy: strategy })
        .unwrap()
}

#[test]
#[should_panic(expected = "VoiceRouter requires at least one provider configuration")]
fn test_empty_config_panics() {
    VoiceRouter::new(VoiceRouterConfig::default()).unwrap();
}

#[test]
fn test_selection_strategy_explicit() {
    let mut providers = ProviderMap::new();
    providers.insert(
        TranscriptionProvider::Gladia,
        ProviderConfig { api_key: "test".into(), base_url: None, timeout_ms: None, headers: None },
    );

    let mut router = VoiceRouter::new(VoiceRouterConfig {
        providers,
        default_provider: None,
        selection_strategy: SelectionStrategy::Explicit,
    })
    .unwrap();

    // Should fail without explicit provider
    let result = router.select_provider(None);
    assert!(result.is_err());

    // Should succeed with explicit provider
    let result = router.select_provider(Some(TranscriptionProvider::Gladia));
    assert!(result.is_ok());
}

#[test]
fn zero_providers_refuse_construction() {
    match VoiceRouter::new(VoiceRouterConfig::default()) {
        Err(AdapterError::InvalidConfig(m)) => {
            assert_eq!(m, "VoiceRouter requires at least one provider configuration")
        }
        other => panic!("unexpected {:?}", other.map(|_| ())),
    }
}

#[test]
fn round_robin_cycles_through_registered_vendors() {
    let mut router = three_vendors(SelectionStrategy::RoundRobin);
    let picks: Vec<_> = (0..6).map(|_| router.select_provider(None).unwrap()).collect();
    let (a, b, c) =
        (TranscriptionProvider::Gladia, TranscriptionProvider::AssemblyAI, TranscriptionProvider::Deepgram);
    assert_eq!(picks, vec![a, b, c, a, b, c]);
}

#[test]
fn unregistered_vendor_names_the_registered_set() {
    let mut router = three_vendors(SelectionStrategy::Default);
    match router.select_provider(Some(TranscriptionProvider::AzureStt)) {
        Err(AdapterError::InvalidConfig(m)) => assert_eq!(
            m,
            "Provider 'AzureStt' is not registered. Available providers: [Gladia, AssemblyAI, Deepgram]"
        ),
        other => panic!("unexpected {:?}", other),
    }
}

#[test]
fn explicit_strategy_always_fails_without_a_vendor() {
    let mut router = three_vendors(SelectionStrategy::Explicit);
    for _ in 0..3 {
        match router.select_provider(None) {
            Err(AdapterError::InvalidConfig(m)) => assert_eq!(
                m,
                "Provider must be explicitly specified when using 'explicit' selection strategy"
            ),
            other => panic!("unexpected {:?}", other),
        }
    }
}

#[test]
fn default_strategy_takes_the_first_vendor() {
    let mut router = three_vendors(SelectionStrategy::Default);
    assert_eq!(router.select_provider(None).unwrap(), TranscriptionProvider::Gladia);
    assert_eq!(router.select_provider(None).unwrap(), TranscriptionProvider::Gladia);
    assert_eq!(router.default_provider(), Some(TranscriptionProvider::Gladia));
}

#[test]
fn vendors_without_credentials_or_adapters_are_not_registered() {
    let mut providers = ProviderMap::new();
    providers.insert(TranscriptionProvider::Gladia, config(""));
    providers.insert(TranscriptionProvider::AzureStt, config("k"));
    providers.insert(TranscriptionProvider::Deepgram, config("k"));
    let router = VoiceRouter::new(VoiceRouterConfig {
        providers,
        default_provider: None,
        selection_strategy: SelectionStrategy::RoundRobin,
    })
    .unwrap();
    assert_eq!(router.get_registered_providers(), vec![TranscriptionProvider::Deepgram]);
    assert!(router.get_provider_capabilities(TranscriptionProvider::Gladia).is_none());
    assert!(router.get_provider_capabilities(TranscriptionProvider::Deepgram).unwrap().pii_redaction);
}

#[test]
fn streaming_needs_the_capability() {
    let mut router = three_vendors(SelectionStrategy::Default);
    let mut caps = router.get_provider_capabilities(TranscriptionProvider::Deepgram).unwrap();
    caps.streaming = false;
    router.register_adapter(TranscriptionProvider::Deepgram, caps);
    match router.transcribe_stream_with_provider(Some(TranscriptionProvider::Deepgram)) {
        Err(AdapterError::NotSupported(m)) => {
            assert_eq!(m, "Provider 'Deepgram' does not support streaming transcription")
        }
        other => panic!("unexpected {:?}", other),
    }
    let chosen = router.transcribe_stream_with_provider(None).unwrap();
    assert_eq!(chosen.provider, TranscriptionProvider::Gladia);
}

#[test]
fn inserting_twice_keeps_one_entry() {
    let mut providers = ProviderMap::new();
    providers.insert(TranscriptionProvider::Gladia, config("a"));
    providers.insert(TranscriptionProvider::Gladia, config("b"));
    assert_eq!(providers.len(), 1);
    assert_eq!(providers.keys(), vec![TranscriptionProvider::Gladia]);
}

#[test]
fn default_is_the_first_registered_vendor() {
    let mut providers = ProviderMap::new();
    providers.insert(TranscriptionProvider::Gladia, config(""));
    providers.insert(TranscriptionProvider::AzureStt, config("k"));
    providers.insert(TranscriptionProvider::Deepgram, config("k"));
    let mut router = VoiceRouter::new(VoiceRouterConfig {
        providers,
        default_provider: None,
        selection_strategy: SelectionStrategy::Default,
    })
    .unwrap();
    assert_eq!(router.default_provider(), Some(TranscriptionProvider::Deepgram));
    assert_eq!(router.select_provider(None).unwrap(), TranscriptionProvider::Deepgram);
    assert!(matches!(
        router.transcribe_stream_with_provider(Some(TranscriptionProvider::Gladia)),
        Err(AdapterError::InvalidConfig(_))
    ));
}
