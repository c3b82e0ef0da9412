//! The closed set of supervised process identifiers and its string form.

use vstd::prelude::*;

verus! {

/// One slot exists per identifier; the set is closed. The one-shot classifier
/// tool is stateless and has no identifier here.
#[derive(Clone, Copy, PartialEq, Eq, Structural, Debug)]
pub enum ProcessId {
    Llm,
    Chat,
    Web,
    Rag,
    Tts,
    Stt,
}

/// The identifier as the UI spells it.
pub open spec fn id_name(id: ProcessId) -> Seq<char> {
    match id {
        ProcessId::Llm => "llm"@,
        ProcessId::Chat => "chat"@,
        ProcessId::Web => "web"@,
        ProcessId::Rag => "rag"@,
        ProcessId::Tts => "tts"@,
        ProcessId::Stt => "stt"@,
    }
}

/// The name used in start-related messages: the inference server is spelled
/// in capitals there, the workers keep their plain identifier.
pub open spec fn start_name(id: ProcessId) -> Seq<char> {
    if id is Llm {
        "LLM"@
    } else {
        id_name(id)
    }
}

pub open spec fn parse_id(name: Seq<char>) -> Option<ProcessId> {
    if name == "llm"@ {
        Some(ProcessId::Llm)
    } else if name == "chat"@ {
        Some(ProcessId::Chat)
    } else if name == "web"@ {
        Some(ProcessId::Web)
    } else if name == "rag"@ {
        Some(ProcessId::Rag)
    } else if name == "tts"@ {
        Some(ProcessId::Tts)
    } else if name == "stt"@ {
        Some(ProcessId::Stt)
    } else {
        None
    }
}

pub fn id_str(id: ProcessId) -> (r: &'static str)
    ensures
        r@ == id_name(id),
{
    match id {
        ProcessId::Llm => "llm",
        ProcessId::Chat => "chat",
        ProcessId::Web => "web",
        ProcessId::Rag => "rag",
        ProcessId::Tts => "tts",
        ProcessId::Stt => "stt",
    }
}

pub fn start_name_str(id: ProcessId) -> (r: &'static str)
    ensures
        r@ == start_name(id),
{
    if matches!(id, ProcessId::Llm) {
        "LLM"
    } else {
        id_str(id)
    }
}

/// Resolve a request's identifier string to a member of the closed set.
pub fn parse_process_id(name: &String) -> (r: Option<ProcessId>)
    ensures
        r == parse_id(name@),
{
    if name.eq(&String::from_str("llm")) {
        Some(ProcessId::Llm)
    } else if name.eq(&String::from_str("chat")) {
        Some(ProcessId::Chat)
    } else if name.eq(&String::from_str("web")) {
        Some(ProcessId::Web)
    } else if name.eq(&String::from_str("rag")) {
        Some(ProcessId::Rag)
    } else if name.eq(&String::from_str("tts")) {
        Some(ProcessId::Tts)
    } else if name.eq(&String::from_str("stt")) {
        Some(ProcessId::Stt)
    } else {
        None
    }
}

} // verus!
