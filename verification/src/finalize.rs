//! Text finalization: at most one rewrite is applied to the raw
//! transcription, script-variant conversion taking priority over an LLM
//! rewrite, and every rewrite failure falls back to the raw text.
use vstd::prelude::*;

use crate::router::opt_val;
use crate::settings::{opt_view, spec_assoc, spec_prompt_for, Settings};
use crate::strutil::spec_is_blank;

verus! {

/// `s` with every occurrence of `pat` replaced by `to`, scanning left to
/// right without overlap, as `str::replace` does for a non-empty pattern.
pub open spec fn spec_replace(s: Seq<char>, pat: Seq<char>, to: Seq<char>) -> Seq<char>
    decreases s.len(),
{
    if pat.len() == 0 || s.len() < pat.len() {
        s
    } else if s.subrange(0, pat.len() as int) == pat {
        to + spec_replace(s.skip(pat.len() as int), pat, to)
    } else {
        seq![s[0]] + spec_replace(s.skip(1), pat, to)
    }
}

fn match_at(s: &str, pat: &str, i: usize) -> (r: bool)
    requires
        i + pat@.len() <= s@.len(),
    ensures
        r == (s@.subrange(i as int, i + pat@.len()) == pat@),
{
    let m = pat.unicode_len();
    let total = s.unicode_len();
    let mut j: usize = 0;
    while j < m
        invariant
            j <= m,
            m == pat@.len(),
            i + m <= s@.len(),
            total == s@.len(),
            forall|k: int| 0 <= k < j ==> s@[i + k] == pat@[k],
        decreases m - j,
    {
        if s.get_char(i + j) != pat.get_char(j) {
            assert(s@.subrange(i as int, i + pat@.len())[j as int] != pat@[j as int]);
            return false;
        }
        j += 1;
    }
    assert(s@.subrange(i as int, i + pat@.len()) =~= pat@);
    true
}

/// Replaces every occurrence of `pat` in `s` by `to`.
pub fn replace_all(s: &str, pat: &str, to: &str) -> (r: String)
    requires
        pat@.len() > 0,
    ensures
        r@ == spec_replace(s@, pat@, to@),
{
    let n = s.unicode_len();
    let m = pat.unicode_len();
    let mut out = String::new();
    let mut i: usize = 0;
    assert(s@.skip(0) =~= s@);
    assert(out@ + spec_replace(s@, pat@, to@) =~= spec_replace(s@, pat@, to@));
    while i < n
        invariant
            i <= n,
            n == s@.len(),
            m == pat@.len(),
            m > 0,
            spec_replace(s@, pat@, to@) == out@ + spec_replace(s@.skip(i as int), pat@, to@),
        decreases n - i,
    {
        let ghost rest = s@.skip(i as int);
        let matched = if m <= n - i {
            let hit = match_at(s, pat, i);
            proof {
                assert(rest.subrange(0, m as int) =~= s@.subrange(i as int, i + m));
            }
            hit
        } else {
            false
        };
        if matched {
            let ghost prev = out@;
            out.append(to);
            proof {
                assert(rest.skip(m as int) =~= s@.skip(i + m));
                assert(spec_replace(rest, pat@, to@) == to@ + spec_replace(
                    s@.skip(i + m),
                    pat@,
                    to@,
                ));
                assert(prev + (to@ + spec_replace(s@.skip(i + m), pat@, to@)) =~= out@
                    + spec_replace(s@.skip(i + m), pat@, to@));
            }
            i += m;
        } else {
            let ch = s.substring_char(i, i + 1);
            let ghost prev = out@;
            out.append(ch);
            proof {
                assert(rest[0] == s@[i as int]);
                assert(ch@ =~= seq![s@[i as int]]);
                assert(rest.skip(1) =~= s@.skip(i + 1));
                if rest.len() < m {
                    assert(s@.skip(i + 1).len() < m);
                    assert(spec_replace(rest, pat@, to@) == rest);
                    assert(spec_replace(s@.skip(i + 1), pat@, to@) == s@.skip(i + 1));
                    assert(rest =~= seq![s@[i as int]] + s@.skip(i + 1));
                } else {
                    assert(spec_replace(rest, pat@, to@) == seq![rest[0]] + spec_replace(
                        rest.skip(1),
                        pat@,
                        to@,
                    ));
                }
                assert(prev + (seq![s@[i as int]] + spec_replace(s@.skip(i + 1), pat@, to@)) =~= out@
                    + spec_replace(s@.skip(i + 1), pat@, to@));
            }
            i += 1;
        }
    }
    assert(s@.skip(n as int) =~= Seq::<char>::empty());
    assert(out@ + spec_replace(s@.skip(n as int), pat@, to@) =~= out@);
    out
}

/// Substitutes the raw transcription for the `${output}` placeholder in a
/// prompt template.
pub fn substitute_output(template: &str, transcription: &str) -> (r: String)
    ensures
        r@ == spec_replace(template@, "${output}"@, transcription@),
{
    proof {
        reveal_strlit("${output}");
    }
    replace_all(template, "${output}", transcription)
}

/// Names the traditional-to-simplified conversion of the `tw2sp` OpenCC
/// configuration.
pub uninterp spec fn tw2sp_of(s: Seq<char>) -> Seq<char>;

/// Relies on `ferrous_opencc::OpenCC::{from_config, convert}` with the
/// built-in `Tw2sp` configuration: Traditional-to-Simplified conversion, a
/// function of the input text alone; `None` when the converter cannot be
/// initialized.
#[verifier::external_body]
fn convert_tw2sp(text: &str) -> (r: Option<String>)
    ensures
        r matches Some(t) ==> t@ == tw2sp_of(text@),
{
    match ferrous_opencc::OpenCC::from_config(ferrous_opencc::config::BuiltinConfig::Tw2sp) {
        Ok(converter) => Some(converter.convert(text)),
        Err(_) => None,
    }
}

/// Names the simplified-to-traditional conversion of the `s2twp` OpenCC
/// configuration.
pub uninterp spec fn s2twp_of(s: Seq<char>) -> Seq<char>;

/// Relies on `ferrous_opencc::OpenCC::{from_config, convert}` with the
/// built-in `S2twp` configuration: Simplified-to-Traditional conversion, a
/// function of the input text alone; `None` when the converter cannot be
/// initialized.
#[verifier::external_body]
fn convert_s2twp(text: &str) -> (r: Option<String>)
    ensures
        r matches Some(t) ==> t@ == s2twp_of(text@),
{
    match ferrous_opencc::OpenCC::from_config(ferrous_opencc::config::BuiltinConfig::S2twp) {
        Ok(converter) => Some(converter.convert(text)),
        Err(_) => None,
    }
}

/// A fully configured LLM rewrite request, ready to be sent.
pub struct LlmRequest {
    pub provider_id: String,
    pub api_key: String,
    pub model: String,
    pub prompt: String,
}

/// The provider id selected for post-processing, empty when none is.
pub open spec fn spec_pp_provider_id(s: Settings) -> Seq<char> {
    opt_val(opt_view(s.selected_post_process_provider))
}

/// The model configured for the selected post-processing provider, empty
/// when none is.
pub open spec fn spec_pp_model(s: Settings) -> Seq<char> {
    match spec_assoc(s.post_process_models@, spec_pp_provider_id(s)) {
        Some(m) => m,
        None => Seq::empty(),
    }
}

/// The API key configured for the selected post-processing provider, empty
/// when none is.
pub open spec fn spec_pp_key(s: Settings) -> Seq<char> {
    match spec_assoc(s.post_process_api_keys@, spec_pp_provider_id(s)) {
        Some(k) => k,
        None => Seq::empty(),
    }
}

/// The selected prompt template, when a prompt is selected and exists.
pub open spec fn spec_pp_prompt(s: Settings) -> Option<Seq<char>> {
    match s.post_process_selected_prompt_id {
        Some(id) => spec_prompt_for(s.post_process_prompts@, id@),
        None => None,
    }
}

/// LLM post-processing is fully configured: enabled, a provider selected, a
/// non-blank model, and a selected, existing, non-blank prompt.
pub open spec fn spec_llm_configured(s: Settings) -> bool {
    &&& s.post_process_enabled
    &&& s.selected_post_process_provider is Some
    &&& !spec_is_blank(spec_pp_model(s))
    &&& s.post_process_selected_prompt_id is Some
    &&& spec_pp_prompt(s) is Some
    &&& !spec_is_blank(opt_val(spec_pp_prompt(s)))
}

/// With post-processing enabled but an empty model configured for the
/// selected provider, the LLM rewrite is never attempted: an empty model
/// name is blank, so the configuration is incomplete.
pub proof fn lemma_empty_model_skips_llm(s: Settings)
    requires
        spec_pp_model(s).len() == 0,
    ensures
        !spec_llm_configured(s),
{
    assert(crate::strutil::spec_trim(Seq::<char>::empty()).len() == 0);
}

/// Builds the one chat-completion request post-processing issues, exactly
/// when the rewrite is fully configured; the prompt carries the raw
/// transcription in place of the `${output}` placeholder.
pub fn post_process_plan(settings: &Settings, transcription: &str) -> (r: Option<LlmRequest>)
    ensures
        r is Some <==> spec_llm_configured(*settings),
        r matches Some(q) ==> q.provider_id@ == spec_pp_provider_id(*settings) && q.model@
            == spec_pp_model(*settings) && q.api_key@ == spec_pp_key(*settings) && q.prompt@
            == spec_replace(opt_val(spec_pp_prompt(*settings)), "${output}"@, transcription@),
{
    if !settings.post_process_enabled {
        return None;
    }
    let provider_id = match &settings.selected_post_process_provider {
        Some(p) => p.clone(),
        None => {
            return None;
        },
    };
    let model = match crate::settings::assoc_get(&settings.post_process_models, provider_id.as_str()) {
        Some(m) => m,
        None => String::new(),
    };
    if crate::strutil::is_blank(model.as_str()) {
        return None;
    }
    let prompt_id = match &settings.post_process_selected_prompt_id {
        Some(id) => id.clone(),
        None => {
            return None;
        },
    };
    let template = match crate::settings::prompt_for(
        &settings.post_process_prompts,
        prompt_id.as_str(),
    ) {
        Some(p) => p,
        None => {
            return None;
        },
    };
    if crate::strutil::is_blank(template.as_str()) {
        return None;
    }
    let api_key = match crate::settings::assoc_get(
        &settings.post_process_api_keys,
        provider_id.as_str(),
    ) {
        Some(k) => k,
        None => String::new(),
    };
    let prompt = substitute_output(template.as_str(), transcription);
    Some(LlmRequest { provider_id, api_key, model, prompt })
}

/// A finalized transcription: the delivered text, the rewritten text when a
/// rewrite applied, and the prompt template used when the rewrite was an LLM
/// one.
pub struct FinalizedText {
    pub final_text: String,
    pub rewritten: Option<String>,
    pub prompt_used: Option<String>,
}

/// What finalization decided: either the text is done, or the one configured
/// LLM request still has to be issued.
pub enum FinalizeStage {
    Done(FinalizedText),
    NeedLlm(LlmRequest),
}

/// A Chinese script variant is the selected language.
pub open spec fn spec_chinese_selected(s: Settings) -> bool {
    s.selected_language@ == "zh-Hans"@ || s.selected_language@ == "zh-Hant"@
}

/// Applies the rewrite decision to the raw transcription. Script conversion
/// takes priority: with a Chinese target selected the LLM path is never
/// taken, whatever is configured, and a conversion-engine failure falls back
/// to the raw text. Otherwise the one configured LLM request is handed back
/// to be issued; with nothing configured the raw text is final.
pub fn finalize_transcription(settings: &Settings, transcription: &str) -> (r: FinalizeStage)
    ensures
        settings.selected_language@ == "zh-Hans"@ ==> (r matches FinalizeStage::Done(f)
            && f.prompt_used is None && ((f.rewritten matches Some(w) && w@ == tw2sp_of(
            transcription@,
        ) && f.final_text@ == tw2sp_of(transcription@)) || (f.rewritten is None && f.final_text@
            == transcription@))),
        settings.selected_language@ == "zh-Hant"@ ==> (r matches FinalizeStage::Done(f)
            && f.prompt_used is None && ((f.rewritten matches Some(w) && w@ == s2twp_of(
            transcription@,
        ) && f.final_text@ == s2twp_of(transcription@)) || (f.rewritten is None && f.final_text@
            == transcription@))),
        (!spec_chinese_selected(*settings) && spec_llm_configured(*settings)) ==> (r matches
            FinalizeStage::NeedLlm(q) && q.provider_id@ == spec_pp_provider_id(*settings)
            && q.model@ == spec_pp_model(*settings) && q.api_key@ == spec_pp_key(*settings)
            && q.prompt@ == spec_replace(
            opt_val(spec_pp_prompt(*settings)),
            "${output}"@,
            transcription@,
        )),
        (!spec_chinese_selected(*settings) && !spec_llm_configured(*settings)) ==> (r matches
            FinalizeStage::Done(f) && f.final_text@ == transcription@ && f.rewritten is None
            && f.prompt_used is None),
{
    proof {
        reveal_strlit("zh-Hans");
        reveal_strlit("zh-Hant");
        assert("zh-Hans"@ != "zh-Hant"@) by {
            assert("zh-Hans"@[6] == 's');
            assert("zh-Hant"@[6] == 't');
        };
    }
    let is_simplified = crate::strutil::str_eq(settings.selected_language.as_str(), "zh-Hans");
    let is_traditional = crate::strutil::str_eq(settings.selected_language.as_str(), "zh-Hant");
    if is_simplified || is_traditional {
        let converted = if is_simplified {
            convert_tw2sp(transcription)
        } else {
            convert_s2twp(transcription)
        };
        return match converted {
            Some(text) => FinalizeStage::Done(
                FinalizedText {
                    final_text: text.clone(),
                    rewritten: Some(text),
                    prompt_used: None,
                },
            ),
            None => FinalizeStage::Done(
                FinalizedText {
                    final_text: transcription.to_owned(),
                    rewritten: None,
                    prompt_used: None,
                },
            ),
        };
    }
    match post_process_plan(settings, transcription) {
        Some(request) => FinalizeStage::NeedLlm(request),
        None => FinalizeStage::Done(
            FinalizedText {
                final_text: transcription.to_owned(),
                rewritten: None,
                prompt_used: None,
            },
        ),
    }
}

/// Folds the outcome of the issued LLM request into the finalized text: any
/// failure falls back silently to the raw transcription; a successful
/// rewrite also records the prompt template that produced it.
pub fn finalize_with_llm_outcome(
    settings: &Settings,
    transcription: &str,
    llm_output: Option<String>,
) -> (r: FinalizedText)
    ensures
        llm_output matches Some(t) ==> (r.rewritten matches Some(w) && r.final_text@ == t@ && w@
            == t@ && opt_view(r.prompt_used) == spec_pp_prompt(*settings)),
        llm_output is None ==> (r.final_text@ == transcription@ && r.rewritten is None
            && r.prompt_used is None),
{
    match llm_output {
        Some(text) => {
            let prompt_used = match &settings.post_process_selected_prompt_id {
                Some(id) => crate::settings::prompt_for(&settings.post_process_prompts, id.as_str()),
                None => None,
            };
            FinalizedText { final_text: text.clone(), rewritten: Some(text), prompt_used }
        },
        None => FinalizedText {
            final_text: transcription.to_owned(),
            rewritten: None,
            prompt_used: None,
        },
    }
}

} // verus!
