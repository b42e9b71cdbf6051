//! Configuration snapshot model: the provider list, per-provider key and
//! model mappings, and the validated mutation operations over a snapshot.
//!
//! Persistence of a snapshot is a collaborator's concern: every operation here
//! is a pure in-memory edit of an explicit snapshot value, and an operation
//! that fails leaves the snapshot exactly as it was.

use vstd::prelude::*;
use vstd::string::StringExecFns;
use crate::error::SttError;

verus! {

/// A named remote transcription service endpoint.
pub struct SttApiProvider {
    /// Unique identity within the provider list.
    pub id: String,
    /// Display name.
    pub label: String,
    /// Endpoint base URL; editable only on the "custom" provider.
    pub base_url: String,
}

impl Clone for SttApiProvider {
    fn clone(&self) -> (r: Self)
        ensures
            r == *self,
    {
        SttApiProvider {
            id: self.id.clone(),
            label: self.label.clone(),
            base_url: self.base_url.clone(),
        }
    }
}

/// One entry of a provider-id-keyed mapping.
pub struct MapEntry {
    pub key: String,
    pub value: String,
}

impl Clone for MapEntry {
    fn clone(&self) -> (r: Self)
        ensures
            r == *self,
    {
        MapEntry { key: self.key.clone(), value: self.value.clone() }
    }
}

/// The value the mapping associates with `key`: the value of the first entry
/// whose key matches, if any.
pub open spec fn spec_lookup(entries: Seq<MapEntry>, key: Seq<char>) -> Option<Seq<char>>
    decreases entries.len(),
{
    if entries.len() == 0 {
        None
    } else if entries[0].key@ == key {
        Some(entries[0].value@)
    } else {
        spec_lookup(entries.drop_first(), key)
    }
}

proof fn lemma_lookup_update(s: Seq<MapEntry>, i: int, e: MapEntry, key: Seq<char>)
    requires
        0 <= i < s.len(),
        s[i].key@ == key,
        e.key@ == key,
        forall|j: int| 0 <= j < i ==> s[j].key@ != key,
    ensures
        spec_lookup(s.update(i, e), key) == Some(e.value@),
        forall|k: Seq<char>|
            k != key ==> spec_lookup(s.update(i, e), k) == spec_lookup(s, k),
    decreases i,
{
    let t = s.update(i, e);
    if i == 0 {
        assert(t.drop_first() =~= s.drop_first());
        assert forall|k: Seq<char>| k != key implies spec_lookup(t, k) == spec_lookup(s, k) by {
            assert(t[0].key@ == key);
            assert(s[0].key@ == key);
        }
    } else {
        assert(t[0] == s[0]);
        assert(t.drop_first() =~= s.drop_first().update(i - 1, e));
        lemma_lookup_update(s.drop_first(), i - 1, e, key);
        assert(spec_lookup(t, key) == Some(e.value@));
        assert forall|k: Seq<char>| k != key implies spec_lookup(t, k) == spec_lookup(s, k) by {
            if s[0].key@ != k {
                assert(spec_lookup(t, k) == spec_lookup(t.drop_first(), k));
                assert(spec_lookup(s, k) == spec_lookup(s.drop_first(), k));
            }
        }
    }
}

proof fn lemma_lookup_push(s: Seq<MapEntry>, e: MapEntry)
    requires
        spec_lookup(s, e.key@) is None,
    ensures
        spec_lookup(s.push(e), e.key@) == Some(e.value@),
        forall|k: Seq<char>|
            k != e.key@ ==> spec_lookup(s.push(e), k) == spec_lookup(s, k),
    decreases s.len(),
{
    let t = s.push(e);
    if s.len() == 0 {
        assert(t[0] == e);
        assert forall|k: Seq<char>|
            k != e.key@ implies spec_lookup(t, k) == spec_lookup(s, k) by {
            assert(t[0] == e);
            assert(t.drop_first() =~= s);
        }
    } else {
        assert(t[0] == s[0]);
        assert(s[0].key@ != e.key@);
        assert(t.drop_first() =~= s.drop_first().push(e));
        lemma_lookup_push(s.drop_first(), e);
        assert forall|k: Seq<char>|
            k != e.key@ implies spec_lookup(t, k) == spec_lookup(s, k) by {
            if s[0].key@ != k {
                assert(spec_lookup(t, k) == spec_lookup(t.drop_first(), k));
                assert(spec_lookup(s, k) == spec_lookup(s.drop_first(), k));
            }
        }
    }
}

/// A mapping from provider id to a string value, stored as a list of entries
/// read by first match.
pub struct StringMap {
    pub entries: Vec<MapEntry>,
}

impl Clone for StringMap {
    fn clone(&self) -> (r: Self)
        ensures
            r.entries@ == self.entries@,
    {
        let mut entries: Vec<MapEntry> = Vec::new();
        let mut i: usize = 0;
        while i < self.entries.len()
            invariant
                i <= self.entries@.len(),
                entries@ =~= self.entries@.take(i as int),
            decreases self.entries@.len() - i,
        {
            entries.push(self.entries[i].clone());
            proof {
                assert(entries@ =~= self.entries@.take(i as int + 1));
            }
            i = i + 1;
        }
        proof {
            assert(self.entries@.take(self.entries@.len() as int) =~= self.entries@);
        }
        StringMap { entries }
    }
}

impl StringMap {
    /// An empty mapping.
    pub fn new() -> (r: StringMap)
        ensures
            r.entries@.len() == 0,
    {
        StringMap { entries: Vec::new() }
    }

    /// The value associated with `key`, if any.
    pub fn get(&self, key: &String) -> (r: Option<&String>)
        ensures
            match r {
                Some(v) => spec_lookup(self.entries@, key@) == Some(v@),
                None => spec_lookup(self.entries@, key@) is None,
            },
    {
        let mut i: usize = 0;
        proof {
            assert(self.entries@.skip(0) =~= self.entries@);
        }
        while i < self.entries.len()
            invariant
                i <= self.entries@.len(),
                spec_lookup(self.entries@, key@) == spec_lookup(
                    self.entries@.skip(i as int),
                    key@,
                ),
            decreases self.entries@.len() - i,
        {
            proof {
                let t = self.entries@.skip(i as int);
                assert(t[0] == self.entries@[i as int]);
                assert(t.drop_first() =~= self.entries@.skip(i as int + 1));
            }
            if self.entries[i].key.eq(key) {
                return Some(&self.entries[i].value);
            }
            i = i + 1;
        }
        None
    }

    /// Associates `value` with `key`, replacing the association in place if
    /// one exists; no other key's association changes.
    pub fn insert(&mut self, key: String, value: String)
        ensures
            spec_lookup(final(self).entries@, key@) == Some(value@),
            forall|k: Seq<char>|
                k != key@ ==> spec_lookup(final(self).entries@, k) == spec_lookup(
                    old(self).entries@,
                    k,
                ),
    {
        let mut i: usize = 0;
        while i < self.entries.len()
            invariant
                i <= self.entries@.len(),
                self.entries@ == old(self).entries@,
                forall|j: int| 0 <= j < i ==> old(self).entries@[j].key@ != key@,
            decreases self.entries@.len() - i,
        {
            if self.entries[i].key.eq(&key) {
                let mut e = self.entries.remove(i);
                e.value = value;
                self.entries.insert(i, e);
                proof {
                    let updated = old(self).entries@.update(i as int, e);
                    assert(self.entries@ =~= updated);
                    lemma_lookup_update(old(self).entries@, i as int, e, key@);
                }
                return ;
            }
            i = i + 1;
        }
        let e = MapEntry { key, value };
        proof {
            lemma_lookup_skip_all(old(self).entries@, e.key@);
            lemma_lookup_push(old(self).entries@, e);
        }
        self.entries.push(e);
    }
}

proof fn lemma_lookup_skip_all(s: Seq<MapEntry>, key: Seq<char>)
    requires
        forall|j: int| 0 <= j < s.len() ==> s[j].key@ != key,
    ensures
        spec_lookup(s, key) is None,
    decreases s.len(),
{
    if s.len() > 0 {
        lemma_lookup_skip_all(s.drop_first(), key);
    }
}

/// The index of the first provider whose id matches, if any.
pub open spec fn spec_find_provider(providers: Seq<SttApiProvider>, id: Seq<char>) -> Option<int>
    decreases providers.len(),
{
    if providers.len() == 0 {
        None
    } else if providers[0].id@ == id {
        Some(0)
    } else {
        match spec_find_provider(providers.drop_first(), id) {
            Some(i) => Some(i + 1),
            None => None,
        }
    }
}

/// A found index is in range and is the first match.
pub proof fn lemma_find_provider_props(providers: Seq<SttApiProvider>, id: Seq<char>)
    ensures
        match spec_find_provider(providers, id) {
            Some(i) => 0 <= i < providers.len() && providers[i].id@ == id && (forall|j: int|
                0 <= j < i ==> providers[j].id@ != id),
            None => forall|j: int| 0 <= j < providers.len() ==> providers[j].id@ != id,
        },
    decreases providers.len(),
{
    if providers.len() > 0 {
        let rest = providers.drop_first();
        lemma_find_provider_props(rest, id);
        if providers[0].id@ != id {
            match spec_find_provider(rest, id) {
                Some(i) => {
                    assert(rest[i] == providers[i + 1]);
                    assert forall|j: int| 0 <= j < i + 1 implies providers[j].id@ != id by {
                        if j > 0 {
                            assert(rest[j - 1] == providers[j]);
                        }
                    }
                },
                None => {
                    assert forall|j: int|
                        0 <= j < providers.len() implies providers[j].id@ != id by {
                        if j > 0 {
                            assert(rest[j - 1] == providers[j]);
                        }
                    }
                },
            }
        }
    }
}

proof fn lemma_find_provider_at(providers: Seq<SttApiProvider>, id: Seq<char>, i: int)
    requires
        0 <= i < providers.len(),
        providers[i].id@ == id,
        forall|j: int| 0 <= j < i ==> providers[j].id@ != id,
    ensures
        spec_find_provider(providers, id) == Some(i),
    decreases i,
{
    if i > 0 {
        lemma_find_provider_at(providers.drop_first(), id, i - 1);
    }
}

proof fn lemma_find_provider_none(providers: Seq<SttApiProvider>, id: Seq<char>)
    requires
        forall|j: int| 0 <= j < providers.len() ==> providers[j].id@ != id,
    ensures
        spec_find_provider(providers, id) is None,
    decreases providers.len(),
{
    if providers.len() > 0 {
        lemma_find_provider_none(providers.drop_first(), id);
    }
}

/// Finds the index of the first provider whose id equals `id`.
pub fn find_provider_index(providers: &Vec<SttApiProvider>, id: &String) -> (r: Option<usize>)
    ensures
        match r {
            Some(i) => spec_find_provider(providers@, id@) == Some(i as int),
            None => spec_find_provider(providers@, id@) is None,
        },
{
    let mut i: usize = 0;
    while i < providers.len()
        invariant
            i <= providers@.len(),
            forall|j: int| 0 <= j < i ==> providers@[j].id@ != id@,
        decreases providers@.len() - i,
    {
        if providers[i].id.eq(id) {
            proof {
                lemma_find_provider_at(providers@, id@, i as int);
            }
            return Some(i);
        }
        i = i + 1;
    }
    proof {
        lemma_find_provider_none(providers@, id@);
    }
    None
}

/// The feature's own settings: the flag, the provider list, the active
/// provider id, and the per-provider secrets and model names.
pub struct SttApiSettings {
    pub enabled: bool,
    pub provider_id: String,
    pub providers: Vec<SttApiProvider>,
    pub api_keys: StringMap,
    pub models: StringMap,
}

/// An immutable copy of user configuration captured for one operation.
pub struct SettingsSnapshot {
    pub stt_api: SttApiSettings,
    /// The preferred transcription language; `"auto"` means "let the server
    /// detect it" and is never sent.
    pub selected_language: String,
}

/// Sets the feature flag; nothing else changes.
pub fn set_stt_api_enabled(settings: &mut SettingsSnapshot, enabled: bool)
    ensures
        final(settings).stt_api.enabled == enabled,
        final(settings).stt_api.provider_id == old(settings).stt_api.provider_id,
        final(settings).stt_api.providers == old(settings).stt_api.providers,
        final(settings).stt_api.api_keys == old(settings).stt_api.api_keys,
        final(settings).stt_api.models == old(settings).stt_api.models,
        final(settings).selected_language == old(settings).selected_language,
{
    settings.stt_api.enabled = enabled;
}

/// Sets the active provider. An id absent from the provider list is rejected,
/// and the snapshot is left untouched.
pub fn set_stt_api_provider(settings: &mut SettingsSnapshot, provider_id: String) -> (r: Result<
    (),
    SttError,
>)
    ensures
        match r {
            Ok(()) => {
                &&& spec_find_provider(old(settings).stt_api.providers@, provider_id@) is Some
                &&& final(settings).stt_api.provider_id == provider_id
                &&& final(settings).stt_api.enabled == old(settings).stt_api.enabled
                &&& final(settings).stt_api.providers == old(settings).stt_api.providers
                &&& final(settings).stt_api.api_keys == old(settings).stt_api.api_keys
                &&& final(settings).stt_api.models == old(settings).stt_api.models
                &&& final(settings).selected_language == old(settings).selected_language
            },
            Err(e) => {
                &&& spec_find_provider(old(settings).stt_api.providers@, provider_id@) is None
                &&& e == (SttError::ProviderNotFound { id: provider_id })
                &&& *final(settings) == *old(settings)
            },
        },
{
    match find_provider_index(&settings.stt_api.providers, &provider_id) {
        Some(_) => {
            settings.stt_api.provider_id = provider_id;
            Ok(())
        },
        None => Err(SttError::ProviderNotFound { id: provider_id }),
    }
}

/// Replaces the base URL of the provider with the given id. Rejected, leaving
/// the snapshot untouched, when the id is absent or names a provider other
/// than "custom"; the rejection's message names that provider's label.
pub fn set_stt_api_base_url(
    settings: &mut SettingsSnapshot,
    provider_id: String,
    base_url: String,
) -> (r: Result<(), SttError>)
    ensures
        match r {
            Ok(()) => {
                &&& spec_find_provider(old(settings).stt_api.providers@, provider_id@) matches Some(
                    i,
                ) && provider_id@ == "custom"@ && final(settings).stt_api.providers@ == old(
                    settings,
                ).stt_api.providers@.update(
                    i,
                    SttApiProvider {
                        id: old(settings).stt_api.providers@[i].id,
                        label: old(settings).stt_api.providers@[i].label,
                        base_url: base_url,
                    },
                )
                &&& final(settings).stt_api.enabled == old(settings).stt_api.enabled
                &&& final(settings).stt_api.provider_id == old(settings).stt_api.provider_id
                &&& final(settings).stt_api.api_keys == old(settings).stt_api.api_keys
                &&& final(settings).stt_api.models == old(settings).stt_api.models
                &&& final(settings).selected_language == old(settings).selected_language
            },
            Err(e) => {
                &&& *final(settings) == *old(settings)
                &&& match spec_find_provider(old(settings).stt_api.providers@, provider_id@) {
                    None => e == (SttError::ProviderNotFound { id: provider_id }),
                    Some(i) => provider_id@ != "custom"@ && e == (SttError::BaseUrlEditNotAllowed {
                        label: old(settings).stt_api.providers@[i].label,
                    }),
                }
            },
        },
{
    match find_provider_index(&settings.stt_api.providers, &provider_id) {
        Some(i) => {
            proof {
                lemma_find_provider_props(settings.stt_api.providers@, provider_id@);
            }
            let custom = String::from_str("custom");
            if settings.stt_api.providers[i].id.eq(&custom) {
                let mut p = settings.stt_api.providers.remove(i);
                p.base_url = base_url;
                settings.stt_api.providers.insert(i, p);
                proof {
                    assert(settings.stt_api.providers@ =~= old(
                        settings,
                    ).stt_api.providers@.update(i as int, p));
                }
                Ok(())
            } else {
                Err(
                    SttError::BaseUrlEditNotAllowed {
                        label: settings.stt_api.providers[i].label.clone(),
                    },
                )
            }
        },
        None => Err(SttError::ProviderNotFound { id: provider_id }),
    }
}

/// Stores the API key for the provider with the given id; an absent id is
/// rejected, leaving the snapshot untouched.
pub fn set_stt_api_key(settings: &mut SettingsSnapshot, provider_id: String, api_key: String) -> (r:
    Result<(), SttError>)
    ensures
        match r {
            Ok(()) => {
                &&& spec_find_provider(old(settings).stt_api.providers@, provider_id@) is Some
                &&& spec_lookup(final(settings).stt_api.api_keys.entries@, provider_id@) == Some(
                    api_key@,
                )
                &&& forall|k: Seq<char>|
                    k != provider_id@ ==> spec_lookup(
                        final(settings).stt_api.api_keys.entries@,
                        k,
                    ) == spec_lookup(old(settings).stt_api.api_keys.entries@, k)
                &&& final(settings).stt_api.enabled == old(settings).stt_api.enabled
                &&& final(settings).stt_api.provider_id == old(settings).stt_api.provider_id
                &&& final(settings).stt_api.providers == old(settings).stt_api.providers
                &&& final(settings).stt_api.models == old(settings).stt_api.models
                &&& final(settings).selected_language == old(settings).selected_language
            },
            Err(e) => {
                &&& spec_find_provider(old(settings).stt_api.providers@, provider_id@) is None
                &&& e == (SttError::ProviderNotFound { id: provider_id })
                &&& *final(settings) == *old(settings)
            },
        },
{
    match find_provider_index(&settings.stt_api.providers, &provider_id) {
        Some(_) => {
            settings.stt_api.api_keys.insert(provider_id, api_key);
            Ok(())
        },
        None => Err(SttError::ProviderNotFound { id: provider_id }),
    }
}

/// Stores the model name for the provider with the given id; an absent id is
/// rejected, leaving the snapshot untouched.
pub fn set_stt_api_model(settings: &mut SettingsSnapshot, provider_id: String, model: String) -> (r:
    Result<(), SttError>)
    ensures
        match r {
            Ok(()) => {
                &&& spec_find_provider(old(settings).stt_api.providers@, provider_id@) is Some
                &&& spec_lookup(final(settings).stt_api.models.entries@, provider_id@) == Some(
                    model@,
                )
                &&& forall|k: Seq<char>|
                    k != provider_id@ ==> spec_lookup(
                        final(settings).stt_api.models.entries@,
                        k,
                    ) == spec_lookup(old(settings).stt_api.models.entries@, k)
                &&& final(settings).stt_api.enabled == old(settings).stt_api.enabled
                &&& final(settings).stt_api.provider_id == old(settings).stt_api.provider_id
                &&& final(settings).stt_api.providers == old(settings).stt_api.providers
                &&& final(settings).stt_api.api_keys == old(settings).stt_api.api_keys
                &&& final(settings).selected_language == old(settings).selected_language
            },
            Err(e) => {
                &&& spec_find_provider(old(settings).stt_api.providers@, provider_id@) is None
                &&& e == (SttError::ProviderNotFound { id: provider_id })
                &&& *final(settings) == *old(settings)
            },
        },
{
    match find_provider_index(&settings.stt_api.providers, &provider_id) {
        Some(_) => {
            settings.stt_api.models.insert(provider_id, model);
            Ok(())
        },
        None => Err(SttError::ProviderNotFound { id: provider_id }),
    }
}

} // verus!
