//! Checks an operator's request goes through before it is sent to a node.
use crate::contracts::{base64_decodes, decodes_as_base64};
use crate::parse::{parse_task_mode, task_mode_named};
use crate::text::{is_blank, trim, trimmed};
use crate::types::{ContractRuntime, TaskMode};
use base64::Engine;
use vstd::prelude::*;

verus! {

/// The standard base64 encoding that the `base64` crate produces for `bytes`.
pub uninterp spec fn base64_encoding(bytes: Seq<u8>) -> Seq<char>;

/// Encodes bytes as standard base64.
///
/// Calls `base64::engine::general_purpose::STANDARD.encode`. The encoding is
/// named; the one fact stated of it is the round trip the crate documents:
/// the standard engine decodes what it encoded.
#[verifier::external_body]
fn encode_base64(bytes: &Vec<u8>) -> (text: String)
    ensures
        text@ == base64_encoding(bytes@),
        base64_decodes(text@),
{
    base64::engine::general_purpose::STANDARD.encode(bytes)
}

/// The text of an optional string.
pub open spec fn opt_text(o: Option<String>) -> Option<Seq<char>> {
    match o {
        Some(s) => Some(s@),
        None => None,
    }
}

/// What a deployment request carries once checked.
#[derive(Debug)]
pub struct DeployRequest {
    pub code: Option<String>,
    pub program_id: Option<String>,
    pub bytecode: Option<String>,
}

/// The checked parts of a deployment request, as texts: code, program id
/// and bytecode; or the refusal.
pub open spec fn deploy_request_outcome(
    runtime: ContractRuntime,
    code: Option<Seq<char>>,
    code_file: Option<Seq<char>>,
    bytecode: Option<Seq<char>>,
    bytecode_file: Option<Seq<u8>>,
    program_id: Option<Seq<char>>,
) -> Result<(Option<Seq<char>>, Option<Seq<char>>, Option<Seq<char>>), Seq<char>> {
    if code is Some && code_file is Some {
        Err("provide either --code or --code-path when deploying contracts"@)
    } else if bytecode is Some && bytecode_file is Some {
        Err("provide either --bytecode or --bytecode-path when deploying contracts"@)
    } else {
        let source = if code is Some {
            code
        } else {
            code_file
        };
        let encoded = match bytecode_file {
            Some(b) => Some(base64_encoding(b)),
            None => bytecode,
        };
        match runtime {
            ContractRuntime::Native => match source {
                None => Err("native deployments require --code or --code-path to provide source"@),
                Some(s) => if trim(s).len() == 0 {
                    Err("native contract code cannot be empty"@)
                } else {
                    Ok((source, None, None))
                },
            },
            ContractRuntime::Solana => match program_id {
                None => Err("solana deployments require --program-id"@),
                Some(p) => if trim(p).len() == 0 {
                    Err("solana deployments require a non-empty --program-id"@)
                } else {
                    let (src, bc) = if encoded is None && source is Some {
                        (None::<Seq<char>>, source)
                    } else {
                        (source, encoded)
                    };
                    match bc {
                        None => Err(
                            "solana deployments require --bytecode, --bytecode-path, or --code containing base64"@,
                        ),
                        Some(b) => if trim(b).len() == 0 {
                            Err("solana bytecode cannot be empty"@)
                        } else if !base64_decodes(b) {
                            Err("solana bytecode must be valid base64"@)
                        } else {
                            Ok((src, Some(trim(p)), bc))
                        },
                    }
                },
            },
        }
    }
}

/// Checks a contract deployment: the source comes inline or from a file,
/// the bytecode inline or as the base64 encoding of a file; a native
/// contract needs non-blank source and carries no program or bytecode; a
/// Solana contract needs a non-blank program id (trimmed) and non-blank,
/// valid base64 bytecode, which the source stands in for when no bytecode
/// is given.
pub fn prepare_deploy_request(
    runtime: ContractRuntime,
    code: Option<String>,
    code_file: Option<String>,
    bytecode: Option<String>,
    bytecode_file: Option<Vec<u8>>,
    program_id: Option<String>,
) -> (r: Result<DeployRequest, String>)
    ensures
        match r {
            Ok(d) => deploy_request_outcome(
                runtime,
                opt_text(code),
                opt_text(code_file),
                opt_text(bytecode),
                match bytecode_file {
                    Some(b) => Some(b@),
                    None => None,
                },
                opt_text(program_id),
            ) == Ok::<(Option<Seq<char>>, Option<Seq<char>>, Option<Seq<char>>), Seq<char>>(
                (opt_text(d.code), opt_text(d.program_id), opt_text(d.bytecode)),
            ),
            Err(e) => deploy_request_outcome(
                runtime,
                opt_text(code),
                opt_text(code_file),
                opt_text(bytecode),
                match bytecode_file {
                    Some(b) => Some(b@),
                    None => None,
                },
                opt_text(program_id),
            ) == Err::<(Option<Seq<char>>, Option<Seq<char>>, Option<Seq<char>>), Seq<char>>(e@),
        },
{
    if code.is_some() && code_file.is_some() {
        return Err(String::from_str("provide either --code or --code-path when deploying contracts"));
    }
    if bytecode.is_some() && bytecode_file.is_some() {
        return Err(
            String::from_str("provide either --bytecode or --bytecode-path when deploying contracts"),
        );
    }
    let source = match code {
        Some(c) => Some(c),
        None => code_file,
    };
    let encoded = match bytecode_file {
        Some(b) => Some(encode_base64(&b)),
        None => bytecode,
    };
    match runtime {
        ContractRuntime::Native => match source {
            None => Err(
                String::from_str("native deployments require --code or --code-path to provide source"),
            ),
            Some(s) => if is_blank(s.as_str()) {
                Err(String::from_str("native contract code cannot be empty"))
            } else {
                Ok(DeployRequest { code: Some(s), program_id: None, bytecode: None })
            },
        },
        ContractRuntime::Solana => match program_id {
            None => Err(String::from_str("solana deployments require --program-id")),
            Some(p) => if is_blank(p.as_str()) {
                Err(String::from_str("solana deployments require a non-empty --program-id"))
            } else {
                let pid = trimmed(p.as_str());
                let (src, bc) = if encoded.is_none() && source.is_some() {
                    (None, source)
                } else {
                    (source, encoded)
                };
                match bc {
                    None => Err(
                        String::from_str(
                            "solana deployments require --bytecode, --bytecode-path, or --code containing base64",
                        ),
                    ),
                    Some(b) => if is_blank(b.as_str()) {
                        Err(String::from_str("solana bytecode cannot be empty"))
                    } else if !decodes_as_base64(b.as_str()) {
                        Err(String::from_str("solana bytecode must be valid base64"))
                    } else {
                        Ok(DeployRequest { code: src, program_id: Some(pid), bytecode: Some(b) })
                    },
                }
            },
        },
    }
}

/// The mode of a task submission: a known mode name, and for a chat task
/// a prompt.
pub open spec fn submission_mode(mode: Seq<char>, has_prompt: bool) -> Result<TaskMode, Seq<char>> {
    match task_mode_named(mode) {
        Err(n) => Err("unsupported task mode '"@ + n + "'"@),
        Ok(m) => if m == TaskMode::Chat && !has_prompt {
            Err("chat mode requires --chat-prompt"@)
        } else {
            Ok(m)
        },
    }
}

/// Checks the mode of a task submission; see `submission_mode`.
pub fn prepare_task_mode(mode: &str, chat_prompt: &Option<String>) -> (r: Result<TaskMode, String>)
    ensures
        match r {
            Ok(m) => submission_mode(mode@, chat_prompt is Some) == Ok::<TaskMode, Seq<char>>(m),
            Err(e) => submission_mode(mode@, chat_prompt is Some) == Err::<TaskMode, Seq<char>>(e@),
        },
{
    match parse_task_mode(mode) {
        Err(n) => {
            let mut msg = String::from_str("unsupported task mode '");
            msg.append(n.as_str());
            msg.append("'");
            Err(msg)
        },
        Ok(m) => if m == TaskMode::Chat && chat_prompt.is_none() {
            Err(String::from_str("chat mode requires --chat-prompt"))
        } else {
            Ok(m)
        },
    }
}

} // verus!
