//! Launch specifications: which executable each identifier runs, with which
//! arguments, and from which directory.
//!
//! The inference server runs a fixed executable with model, GPU-offload,
//! context and thread arguments. The workers run a module-style invocation of
//! `<id>_worker:app` under an ASGI server, bound to `0.0.0.0` and the requested
//! port, with a single worker process, from the backend directory; their
//! interpreter is resolved from the user-profile directory. Paths use the
//! platform's backslash separator, as the runtime targets Windows.

use vstd::prelude::*;

use crate::decimal::{dec_str_of, decimal_string};
use crate::ids::{id_name, id_str, ProcessId};

verus! {

pub open spec fn llama_server_exe() -> Seq<char> {
    "D:\\Programming\\Projects\\Tauri\\haru\\src-tauri\\lib\\llama-server.exe"@
}

pub fn llama_server_exe_str() -> (r: &'static str)
    ensures
        r@ == llama_server_exe(),
{
    "D:\\Programming\\Projects\\Tauri\\haru\\src-tauri\\lib\\llama-server.exe"
}

pub open spec fn llm_model_path() -> Seq<char> {
    "D:\\Programming\\Projects\\Tauri\\haru\\src-tauri\\weights\\gemma-3-4b-it-q4_0.gguf"@
}

pub fn llm_model_path_str() -> (r: &'static str)
    ensures
        r@ == llm_model_path(),
{
    "D:\\Programming\\Projects\\Tauri\\haru\\src-tauri\\weights\\gemma-3-4b-it-q4_0.gguf"
}

pub open spec fn llm_projection_path() -> Seq<char> {
    "D:\\Programming\\Projects\\Tauri\\haru\\src-tauri\\weights\\mmproj-model-f16-4B.gguf"@
}

pub fn llm_projection_path_str() -> (r: &'static str)
    ensures
        r@ == llm_projection_path(),
{
    "D:\\Programming\\Projects\\Tauri\\haru\\src-tauri\\weights\\mmproj-model-f16-4B.gguf"
}

pub open spec fn backend_dir() -> Seq<char> {
    "D:\\Programming\\Projects\\Tauri\\haru\\src-tauri\\backend"@
}

pub fn backend_dir_str() -> (r: &'static str)
    ensures
        r@ == backend_dir(),
{
    "D:\\Programming\\Projects\\Tauri\\haru\\src-tauri\\backend"
}

pub open spec fn classifier_exe() -> Seq<char> {
    "D:\\Programming\\Projects\\Tauri\\haru\\src-tauri\\models\\fasttext.exe"@
}

pub fn classifier_exe_str() -> (r: &'static str)
    ensures
        r@ == classifier_exe(),
{
    "D:\\Programming\\Projects\\Tauri\\haru\\src-tauri\\models\\fasttext.exe"
}

pub open spec fn classifier_model_path() -> Seq<char> {
    "D:\\Programming\\Projects\\Tauri\\haru\\src-tauri\\weights\\model.bin"@
}

pub fn classifier_model_path_str() -> (r: &'static str)
    ensures
        r@ == classifier_model_path(),
{
    "D:\\Programming\\Projects\\Tauri\\haru\\src-tauri\\weights\\model.bin"
}

pub open spec fn classifier_input_path() -> Seq<char> {
    "D:\\Programming\\Projects\\Tauri\\haru\\src-tauri\\weights\\input.txt"@
}

pub fn classifier_input_path_str() -> (r: &'static str)
    ensures
        r@ == classifier_input_path(),
{
    "D:\\Programming\\Projects\\Tauri\\haru\\src-tauri\\weights\\input.txt"
}

/// The interpreter for the workers, resolved under the user-profile directory.
pub open spec fn interp_path_of(user_profile: Seq<char>) -> Seq<char> {
    user_profile + "\\miniconda3\\envs\\haru\\python.exe"@
}

pub fn interpreter_path(user_profile: &String) -> (r: String)
    ensures
        r@ == interp_path_of(user_profile@),
{
    user_profile.clone().concat("\\miniconda3\\envs\\haru\\python.exe")
}

/// The ASGI application naming a worker: `<id>_worker:app`.
pub open spec fn worker_module(id: ProcessId) -> Seq<char> {
    id_name(id) + "_worker:app"@
}

pub fn worker_module_string(id: ProcessId) -> (r: String)
    ensures
        r@ == worker_module(id),
{
    String::from_str(id_str(id)).concat("_worker:app")
}

/// An ephemeral description of one process launch: executable, arguments, and
/// the directory to run from. Built per request and never stored.
pub struct LaunchSpec {
    pub program: String,
    pub args: Vec<String>,
    pub current_dir: Option<String>,
}

pub struct LaunchSpecView {
    pub program: Seq<char>,
    pub args: Seq<Seq<char>>,
    pub current_dir: Option<Seq<char>>,
}

impl View for LaunchSpec {
    type V = LaunchSpecView;

    open spec fn view(&self) -> LaunchSpecView {
        LaunchSpecView {
            program: self.program@,
            args: self.args.deep_view(),
            current_dir: self.current_dir.deep_view(),
        }
    }
}

/// The inference server's launch: fixed executable and model, an optional
/// secondary projection model, full GPU offload, an 8192-token context and six
/// threads.
pub open spec fn llm_launch(multimodel: bool) -> LaunchSpecView {
    LaunchSpecView {
        program: llama_server_exe(),
        args: if multimodel {
            seq![
                "-m"@,
                llm_model_path(),
                "--mmproj"@,
                llm_projection_path(),
                "-ngl"@,
                "99"@,
                "-c"@,
                "8192"@,
                "-t"@,
                "6"@,
            ]
        } else {
            seq!["-m"@, llm_model_path(), "-ngl"@, "99"@, "-c"@, "8192"@, "-t"@, "6"@]
        },
        current_dir: None,
    }
}

pub fn build_llm_launch(multimodel: bool) -> (r: LaunchSpec)
    ensures
        r@ == llm_launch(multimodel),
{
    let mut args: Vec<String> = Vec::new();
    args.push(String::from_str("-m"));
    args.push(String::from_str(llm_model_path_str()));
    if multimodel {
        args.push(String::from_str("--mmproj"));
        args.push(String::from_str(llm_projection_path_str()));
    }
    args.push(String::from_str("-ngl"));
    args.push(String::from_str("99"));
    args.push(String::from_str("-c"));
    args.push(String::from_str("8192"));
    args.push(String::from_str("-t"));
    args.push(String::from_str("6"));
    let r = LaunchSpec {
        program: String::from_str(llama_server_exe_str()),
        args,
        current_dir: None,
    };
    proof {
        assert(r@.args =~= llm_launch(multimodel).args);
    }
    r
}

/// A worker's launch: the resolved interpreter runs `<id>_worker:app` under
/// uvicorn on the given port, as a single process, from the backend directory.
pub open spec fn worker_launch(id: ProcessId, port: u16, user_profile: Seq<char>) -> LaunchSpecView {
    LaunchSpecView {
        program: interp_path_of(user_profile),
        args: seq![
            "-m"@,
            "uvicorn"@,
            worker_module(id),
            "--host"@,
            "0.0.0.0"@,
            "--port"@,
            dec_str_of(port as nat),
            "--workers"@,
            "1"@,
        ],
        current_dir: Some(backend_dir()),
    }
}

pub fn build_worker_launch(id: ProcessId, port: u16, user_profile: &String) -> (r: LaunchSpec)
    ensures
        r@ == worker_launch(id, port, user_profile@),
{
    let mut args: Vec<String> = Vec::new();
    args.push(String::from_str("-m"));
    args.push(String::from_str("uvicorn"));
    args.push(worker_module_string(id));
    args.push(String::from_str("--host"));
    args.push(String::from_str("0.0.0.0"));
    args.push(String::from_str("--port"));
    args.push(decimal_string(port as u64));
    args.push(String::from_str("--workers"));
    args.push(String::from_str("1"));
    let r = LaunchSpec {
        program: interpreter_path(user_profile),
        args,
        current_dir: Some(String::from_str(backend_dir_str())),
    };
    proof {
        assert(r@.args =~= worker_launch(id, port, user_profile@).args);
    }
    r
}

/// The one-shot classifier's launch: a fixed executable predicting on fixed
/// model and input files.
pub open spec fn classify_launch_spec() -> LaunchSpecView {
    LaunchSpecView {
        program: classifier_exe(),
        args: seq!["predict"@, classifier_model_path(), classifier_input_path()],
        current_dir: None,
    }
}

pub fn build_classify_launch() -> (r: LaunchSpec)
    ensures
        r@ == classify_launch_spec(),
{
    let mut args: Vec<String> = Vec::new();
    args.push(String::from_str("predict"));
    args.push(String::from_str(classifier_model_path_str()));
    args.push(String::from_str(classifier_input_path_str()));
    let r = LaunchSpec { program: String::from_str(classifier_exe_str()), args, current_dir: None };
    proof {
        assert(r@.args =~= classify_launch_spec().args);
    }
    r
}

} // verus!
