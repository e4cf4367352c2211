//! The immutable settings snapshot read once at the start of each operation,
//! and small lookup helpers over its association lists.
use vstd::prelude::*;

verus! {

/// Which engine produces the raw transcription.
#[derive(Clone, Copy, PartialEq, Eq, Structural, Debug)]
pub enum TranscriptionProvider {
    Local,
    Openai,
    Deepgram,
}

/// Whether requests run against the managed backend or the user's own
/// provider keys.
#[derive(Clone, Copy, PartialEq, Eq, Structural, Debug)]
pub enum UsageMode {
    Managed,
    OwnKeys,
}

/// A rewrite prompt the user can select for LLM post-processing.
pub struct PostProcessPrompt {
    pub id: String,
    pub prompt: String,
}

/// Settings snapshot. Read once per operation; no operation observes a
/// change partway through.
pub struct Settings {
    pub provider: TranscriptionProvider,
    pub api_base_url: Option<String>,
    pub auth_token: Option<String>,
    pub selected_language: String,
    pub selected_model: String,
    pub deepgram_model: String,
    pub deepgram_api_key: Option<String>,
    pub use_secure_key_storage: bool,
    pub usage_mode: UsageMode,
    pub always_on_microphone: bool,
    pub post_process_enabled: bool,
    pub selected_post_process_provider: Option<String>,
    pub post_process_models: Vec<(String, String)>,
    pub post_process_api_keys: Vec<(String, String)>,
    pub post_process_prompts: Vec<PostProcessPrompt>,
    pub post_process_selected_prompt_id: Option<String>,
}

/// The character sequence carried by an optional string.
pub open spec fn opt_view(o: Option<String>) -> Option<Seq<char>> {
    match o {
        Some(s) => Some(s@),
        None => None,
    }
}

/// First value bound to `key` in an association list, if any.
pub open spec fn spec_assoc(entries: Seq<(String, String)>, key: Seq<char>) -> Option<Seq<char>>
    decreases entries.len(),
{
    if entries.len() == 0 {
        None
    } else if entries[0].0@ == key {
        Some(entries[0].1@)
    } else {
        spec_assoc(entries.drop_first(), key)
    }
}

/// Looks `key` up in an association list, returning the first binding.
pub fn assoc_get(entries: &Vec<(String, String)>, key: &str) -> (r: Option<String>)
    ensures
        r matches Some(v) ==> spec_assoc(entries@, key@) == Some(v@),
        r is None ==> spec_assoc(entries@, key@) is None,
{
    let n = entries.len();
    let mut i: usize = 0;
    assert(entries@.skip(0) =~= entries@);
    while i < n
        invariant
            i <= n,
            n == entries@.len(),
            spec_assoc(entries@, key@) == spec_assoc(entries@.skip(i as int), key@),
        decreases n - i,
    {
        assert(entries@.skip(i as int)[0] == entries@[i as int]);
        if crate::strutil::str_eq(entries[i].0.as_str(), key) {
            return Some(entries[i].1.clone());
        }
        assert(entries@.skip(i as int).drop_first() =~= entries@.skip(i + 1));
        i += 1;
    }
    assert(entries@.skip(n as int) =~= Seq::<(String, String)>::empty());
    None
}

/// First prompt text bound to `id` among the configured prompts, if any.
pub open spec fn spec_prompt_for(prompts: Seq<PostProcessPrompt>, id: Seq<char>) -> Option<
    Seq<char>,
>
    decreases prompts.len(),
{
    if prompts.len() == 0 {
        None
    } else if prompts[0].id@ == id {
        Some(prompts[0].prompt@)
    } else {
        spec_prompt_for(prompts.drop_first(), id)
    }
}

/// Finds the first configured prompt whose id is `id`.
pub fn prompt_for(prompts: &Vec<PostProcessPrompt>, id: &str) -> (r: Option<String>)
    ensures
        r matches Some(v) ==> spec_prompt_for(prompts@, id@) == Some(v@),
        r is None ==> spec_prompt_for(prompts@, id@) is None,
{
    let n = prompts.len();
    let mut i: usize = 0;
    assert(prompts@.skip(0) =~= prompts@);
    while i < n
        invariant
            i <= n,
            n == prompts@.len(),
            spec_prompt_for(prompts@, id@) == spec_prompt_for(prompts@.skip(i as int), id@),
        decreases n - i,
    {
        assert(prompts@.skip(i as int)[0] == prompts@[i as int]);
        if crate::strutil::str_eq(prompts[i].id.as_str(), id) {
            return Some(prompts[i].prompt.clone());
        }
        assert(prompts@.skip(i as int).drop_first() =~= prompts@.skip(i + 1));
        i += 1;
    }
    assert(prompts@.skip(n as int) =~= Seq::<PostProcessPrompt>::empty());
    None
}

} // verus!
