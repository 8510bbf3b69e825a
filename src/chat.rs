use vstd::prelude::*;
use vstd::string::*;

use crate::text::chars_of;
use crate::types::ChatResponse;

verus! {

/// Number of jailbreak patterns that a model response is screened for.
pub const INJECTION_PATTERN_COUNT: usize = 9;

/// Number of words of which one must occur in an acceptable response.
pub const MEDICAL_KEYWORD_COUNT: usize = 21;

/// Whether `regex::Regex::new(pattern)` succeeds.
pub uninterp spec fn regex_compiles(pattern: Seq<char>) -> bool;

/// What `is_match(text)` gives on the regex compiled from `pattern`.
pub uninterp spec fn regex_flags(pattern: Seq<char>, text: Seq<char>) -> bool;

/// What `str::to_lowercase` returns.
pub uninterp spec fn lower_of(s: Seq<char>) -> Seq<char>;

/// Relies on `regex::Regex::new` to compile `pattern` (`None` when it
/// returns an error) and `Regex::is_match` to search all of `text`.
#[verifier::external_body]
fn regex_flag(pattern: &str, text: &str) -> (r: Option<bool>)
    ensures
        r is Some <==> regex_compiles(pattern@),
        r matches Some(b) ==> b == regex_flags(pattern@, text@),
{
    match regex::Regex::new(pattern) {
        Ok(re) => Some(re.is_match(text)),
        Err(_) => None,
    }
}

/// Whether the injection pattern `pattern` flags `text`. A pattern that does
/// not compile flags every text, so that a response is refused rather than
/// passed on unchecked.
pub open spec fn flagged_by(pattern: Seq<char>, text: Seq<char>) -> bool {
    !regex_compiles(pattern) || regex_flags(pattern, text)
}

/// Reads a search result: a match, or a pattern that did not compile, flags.
pub fn search_flags(search: Option<bool>) -> (r: bool)
    ensures
        r == match search {
            Some(b) => b,
            None => true,
        },
{
    match search {
        Some(b) => b,
        None => true,
    }
}

/// Relies on `str::to_lowercase`; the result depends on the characters alone.
#[verifier::external_body]
fn lowercase(s: &str) -> (r: String)
    ensures
        r@ == lower_of(s@),
{
    s.to_lowercase()
}

/// The jailbreak phrases, each matched without regard to case.
pub open spec fn injection_pattern(i: int) -> Seq<char> {
    if i == 0 {
        "(?i)ignore previous instructions"@
    } else if i == 1 {
        "(?i)as an ai language model"@
    } else if i == 2 {
        "(?i)disregard all prior"@
    } else if i == 3 {
        "(?i)pretend to be"@
    } else if i == 4 {
        "(?i)you are now"@
    } else if i == 5 {
        "(?i)jailbreak"@
    } else if i == 6 {
        "(?i)do anything now"@
    } else if i == 7 {
        "(?i)unfiltered response"@
    } else {
        "(?i)developer mode"@
    }
}

fn injection_pattern_at(i: usize) -> (r: &'static str)
    requires
        i < INJECTION_PATTERN_COUNT,
    ensures
        r@ == injection_pattern(i as int),
{
    if i == 0 {
        "(?i)ignore previous instructions"
    } else if i == 1 {
        "(?i)as an ai language model"
    } else if i == 2 {
        "(?i)disregard all prior"
    } else if i == 3 {
        "(?i)pretend to be"
    } else if i == 4 {
        "(?i)you are now"
    } else if i == 5 {
        "(?i)jailbreak"
    } else if i == 6 {
        "(?i)do anything now"
    } else if i == 7 {
        "(?i)unfiltered response"
    } else {
        "(?i)developer mode"
    }
}

/// The words, in lower case, that mark a response as being about medicine or health.
pub open spec fn medical_keyword(i: int) -> Seq<char> {
    if i == 0 {
        "medical"@
    } else if i == 1 {
        "health"@
    } else if i == 2 {
        "doctor"@
    } else if i == 3 {
        "medicine"@
    } else if i == 4 {
        "symptom"@
    } else if i == 5 {
        "treatment"@
    } else if i == 6 {
        "diagnosis"@
    } else if i == 7 {
        "patient"@
    } else if i == 8 {
        "disease"@
    } else if i == 9 {
        "condition"@
    } else if i == 10 {
        "therapy"@
    } else if i == 11 {
        "prescription"@
    } else if i == 12 {
        "illness"@
    } else if i == 13 {
        "clinical"@
    } else if i == 14 {
        "pharmacy"@
    } else if i == 15 {
        "nurse"@
    } else if i == 16 {
        "hospital"@
    } else if i == 17 {
        "wellness"@
    } else if i == 18 {
        "injury"@
    } else if i == 19 {
        "recovery"@
    } else {
        "prevention"@
    }
}

fn medical_keyword_at(i: usize) -> (r: &'static str)
    requires
        i < MEDICAL_KEYWORD_COUNT,
    ensures
        r@ == medical_keyword(i as int),
{
    if i == 0 {
        "medical"
    } else if i == 1 {
        "health"
    } else if i == 2 {
        "doctor"
    } else if i == 3 {
        "medicine"
    } else if i == 4 {
        "symptom"
    } else if i == 5 {
        "treatment"
    } else if i == 6 {
        "diagnosis"
    } else if i == 7 {
        "patient"
    } else if i == 8 {
        "disease"
    } else if i == 9 {
        "condition"
    } else if i == 10 {
        "therapy"
    } else if i == 11 {
        "prescription"
    } else if i == 12 {
        "illness"
    } else if i == 13 {
        "clinical"
    } else if i == 14 {
        "pharmacy"
    } else if i == 15 {
        "nurse"
    } else if i == 16 {
        "hospital"
    } else if i == 17 {
        "wellness"
    } else if i == 18 {
        "injury"
    } else if i == 19 {
        "recovery"
    } else {
        "prevention"
    }
}

/// The reply that replaces a response showing signs of prompt injection.
pub open spec fn refusal() -> Seq<char> {
    "I'm sorry, but I cannot comply with that request."@
}

/// The reply that replaces a response about neither medicine nor health.
pub open spec fn off_topic() -> Seq<char> {
    "I'm only able to answer questions about medical or health topics. Please ask a health-related question."@
}

/// Whether `needle` occurs in `hay` as a contiguous run.
pub open spec fn occurs_in(needle: Seq<char>, hay: Seq<char>) -> bool {
    exists|i: int| 0 <= i <= hay.len() - needle.len() && #[trigger] hay.subrange(i, i + needle.len()) == needle
}

/// Whether some medical keyword occurs in `lowered`.
pub open spec fn mentions_health(lowered: Seq<char>) -> bool {
    exists|k: int| 0 <= k < MEDICAL_KEYWORD_COUNT && occurs_in(#[trigger] medical_keyword(k), lowered)
}

/// The reply chosen for `response`, given which injection patterns flagged it
/// and its lower-case form.
pub open spec fn chosen_reply(flags: Seq<bool>, lowered: Seq<char>, response: Seq<char>) -> Seq<
    char,
> {
    if exists|i: int| 0 <= i < flags.len() && #[trigger] flags[i] {
        refusal()
    } else if mentions_health(lowered) {
        response
    } else {
        off_topic()
    }
}

fn occurs(needle: &Vec<char>, hay: &Vec<char>) -> (r: bool)
    ensures
        r == occurs_in(needle@, hay@),
{
    if needle.len() > hay.len() {
        return false;
    }
    let n = needle.len();
    if n == 0 {
        assert(hay@.subrange(0, 0 + needle@.len() as int) =~= needle@);
        return true;
    }
    let total = hay.len();
    let last = total - n;
    let mut i: usize = 0;
    while i <= last
        invariant
            n == needle@.len(),
            total == hay@.len(),
            last == total - n,
            1 <= n <= total,
            i <= last + 1,
            forall|p: int| 0 <= p < i ==> #[trigger] hay@.subrange(p, p + n) != needle@,
        decreases last + 1 - i,
    {
        let mut j: usize = 0;
        while j < n && hay[i + j] == needle[j]
            invariant
                n == needle@.len(),
                total == hay@.len(),
                1 <= n <= total,
                i <= last,
                last == total - n,
                j <= n,
                forall|q: int| 0 <= q < j ==> hay@[i + q] == needle@[q],
            decreases n - j,
        {
            j = j + 1;
        }
        if j == n {
            assert(hay@.subrange(i as int, i + n) =~= needle@);
            return true;
        }
        assert(hay@.subrange(i as int, i + n)[j as int] != needle@[j as int]);
        i = i + 1;
    }
    proof {
        assert forall|p: int| 0 <= p <= hay@.len() - needle@.len() implies #[trigger] hay@.subrange(
            p,
            p + needle@.len(),
        ) != needle@ by {}
    }
    false
}

/// Picks the reply to pass on for model response `ai_response`: the refusal
/// if any injection pattern flagged it (`injection_flags`), else the response
/// itself if its lower-case form `lowered` mentions a medical keyword, else
/// the off-topic reply.
pub fn choose_reply(injection_flags: &Vec<bool>, lowered: &str, ai_response: &str) -> (r: String)
    ensures
        r@ == chosen_reply(injection_flags@, lowered@, ai_response@),
{
    let mut i: usize = 0;
    while i < injection_flags.len()
        invariant
            i <= injection_flags@.len(),
            forall|p: int| 0 <= p < i ==> !#[trigger] injection_flags@[p],
        decreases injection_flags@.len() - i,
    {
        if injection_flags[i] {
            return String::from_str("I'm sorry, but I cannot comply with that request.");
        }
        i = i + 1;
    }
    let hay = chars_of(lowered);
    let mut k: usize = 0;
    while k < MEDICAL_KEYWORD_COUNT
        invariant
            hay@ == lowered@,
            k <= MEDICAL_KEYWORD_COUNT,
            forall|p: int| 0 <= p < injection_flags@.len() ==> !#[trigger] injection_flags@[p],
            forall|q: int| 0 <= q < k ==> !occurs_in(#[trigger] medical_keyword(q), lowered@),
        decreases MEDICAL_KEYWORD_COUNT - k,
    {
        let word = chars_of(medical_keyword_at(k));
        if occurs(&word, &hay) {
            assert(occurs_in(medical_keyword(k as int), lowered@));
            return String::from_str(ai_response);
        }
        k = k + 1;
    }
    String::from_str(
        "I'm only able to answer questions about medical or health topics. Please ask a health-related question.",
    )
}

/// Screens a model response before it reaches the user: a response matching
/// a jailbreak pattern is replaced by a refusal, one that mentions no medical
/// keyword (in lower case) by an off-topic notice; any other is kept.
pub fn filter_ai_response(user_message: &str, ai_response: &str) -> (r: String)
    ensures
        r@ == chosen_reply(
            Seq::new(
                INJECTION_PATTERN_COUNT as nat,
                |i: int| flagged_by(injection_pattern(i), ai_response@),
            ),
            lower_of(ai_response@),
            ai_response@,
        ),
{
    let mut flags: Vec<bool> = Vec::new();
    let mut i: usize = 0;
    while i < INJECTION_PATTERN_COUNT
        invariant
            i <= INJECTION_PATTERN_COUNT,
            flags@.len() == i,
            forall|p: int| 0 <= p < i ==> flags@[p] == flagged_by(injection_pattern(p), ai_response@),
        decreases INJECTION_PATTERN_COUNT - i,
    {
        let hit = search_flags(regex_flag(injection_pattern_at(i), ai_response));
        flags.push(hit);
        i = i + 1;
    }
    let lowered = lowercase(ai_response);
    proof {
        assert(flags@ =~= Seq::new(
            INJECTION_PATTERN_COUNT as nat,
            |i: int| flagged_by(injection_pattern(i), ai_response@),
        ));
    }
    choose_reply(&flags, lowered.as_str(), ai_response)
}

/// The system prompt used when a chat request brings none.
pub open spec fn default_system_prompt() -> Seq<char> {
    "You are a helpful AI doctor assistant. You must only answer questions that are strictly about medical or health topics. If a user asks about anything outside of medicine or health, politely refuse and explain that you can only assist with medical and health-related questions. Always provide accurate, helpful medical information while being clear that you are an AI and not a replacement for professional medical advice. Be concise but thorough in your responses."@
}

/// The request's system prompt, or the default one.
pub fn system_prompt_or_default(system_prompt: Option<String>) -> (r: String)
    ensures
        r@ == match system_prompt {
            Some(p) => p@,
            None => default_system_prompt(),
        },
{
    match system_prompt {
        Some(p) => p,
        None => String::from_str(
            "You are a helpful AI doctor assistant. You must only answer questions that are strictly about medical or health topics. If a user asks about anything outside of medicine or health, politely refuse and explain that you can only assist with medical and health-related questions. Always provide accurate, helpful medical information while being clear that you are an AI and not a replacement for professional medical advice. Be concise but thorough in your responses.",
        ),
    }
}

/// The answer to a chat request whose generation gave `ai_result`: the
/// screened response on success, or an empty response with the error.
pub fn chat_response(user_message: &str, ai_result: Result<String, String>) -> (r: ChatResponse)
    ensures
        match ai_result {
            Ok(resp) => r.success && r.error is None && r.response@ == chosen_reply(
                Seq::new(
                    INJECTION_PATTERN_COUNT as nat,
                    |i: int| flagged_by(injection_pattern(i), resp@),
                ),
                lower_of(resp@),
                resp@,
            ),
            Err(e) => !r.success && r.response@.len() == 0 && r.error == Some(e),
        },
{
    match ai_result {
        Ok(resp) => {
            let filtered = filter_ai_response(user_message, resp.as_str());
            ChatResponse { response: filtered, success: true, error: None }
        },
        Err(e) => ChatResponse { response: String::new(), success: false, error: Some(e) },
    }
}

} // verus!
