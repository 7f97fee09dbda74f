//! Smart contracts: deployment and recorded calls.
use crate::arith::{wrap_add, wrapping_add_u64};
use crate::ledger::{
    ErrorCode, Ledger, LedgerError, accounts_of, account_or_fresh, fails_with,
};
use crate::table::str_eq;
use crate::zero_proof::{default_hash_parts, hash_parts, part_texts};
use crate::text::{
    decimal, hex16, hex_digits, is_blank, trim, trimmed, write_decimal,
};
use crate::types::{ContractEvent, ContractRuntime, LedgerState, SmartContract};
use base64::Engine;
use vstd::prelude::*;

verus! {

/// Whether the standard base64 engine of the `base64` crate decodes `text`.
pub uninterp spec fn base64_decodes(text: Seq<char>) -> bool;

/// Whether `text` is valid standard base64.
///
/// Calls `base64::engine::general_purpose::STANDARD.decode` on the bytes
/// of `text` and reports whether it succeeded. Which inputs that engine
/// accepts (padding, alphabet, trailing bits) is named and not restated.
#[verifier::external_body]
pub(crate) fn decodes_as_base64(text: &str) -> (ok: bool)
    ensures
        ok == base64_decodes(text@),
{
    base64::engine::general_purpose::STANDARD.decode(text.as_bytes()).is_ok()
}

/// The value of a string of decimal digits.
pub open spec fn digits_value(s: Seq<char>) -> nat
    decreases s.len(),
{
    if s.len() == 0 {
        0
    } else {
        digits_value(s.drop_last()) * 10 + (s.last() as nat - '0' as nat) as nat
    }
}

/// Every character is an ASCII digit.
pub open spec fn all_digits(s: Seq<char>) -> bool {
    forall|i: int| 0 <= i < s.len() ==> '0' <= #[trigger] s[i] <= '9'
}

/// What `str::parse::<u64>` gives: an optional `+`, then at least one
/// digit, the value fitting in 64 bits.
pub open spec fn parse_u64(s: Seq<char>) -> Option<u64> {
    let d = if s.len() > 1 && s[0] == '+' {
        s.drop_first()
    } else {
        s
    };
    if d.len() == 0 || !all_digits(d) || digits_value(d) > u64::MAX {
        None
    } else {
        Some(digits_value(d) as u64)
    }
}

proof fn lemma_digits_monotone(s: Seq<char>, j: int)
    requires
        0 <= j <= s.len(),
        all_digits(s),
    ensures
        digits_value(s.subrange(0, j)) <= digits_value(s),
    decreases s.len() - j,
{
    if j < s.len() {
        let t = s.drop_last();
        assert(all_digits(t)) by {
            assert forall|i: int| 0 <= i < t.len() implies '0' <= #[trigger] t[i] <= '9' by {
                assert(t[i] == s[i]);
            }
        }
        lemma_digits_monotone(t, j);
        assert(t.subrange(0, j) =~= s.subrange(0, j));
        assert('0' <= s.last() <= '9');
    } else {
        assert(s.subrange(0, j) =~= s);
    }
}

fn parse_digits(s: &str, start: usize) -> (r: Option<u64>)
    requires
        start <= s@.len(),
    ensures
        ({
            let d = s@.subrange(start as int, s@.len() as int);
            r == (if d.len() == 0 || !all_digits(d) || digits_value(d) > u64::MAX {
                None
            } else {
                Some(digits_value(d) as u64)
            })
        }),
{
    let n = s.unicode_len();
    let ghost d = s@.subrange(start as int, n as int);
    if start == n {
        return None;
    }
    let mut value: u64 = 0;
    let mut i: usize = start;
    while i < n
        invariant
            n == s@.len(),
            start <= i <= n,
            d == s@.subrange(start as int, n as int),
            all_digits(s@.subrange(start as int, i as int)),
            value == digits_value(s@.subrange(start as int, i as int)),
        decreases n - i,
    {
        let c = s.get_char(i);
        let ghost p = s@.subrange(start as int, i + 1);
        proof {
            assert(p.drop_last() =~= s@.subrange(start as int, i as int));
        }
        if c < '0' || c > '9' {
            proof {
                assert(d[i - start] == c);
            }
            return None;
        }
        let digit = (c as u32 - '0' as u32) as u64;
        if value > (u64::MAX - digit) / 10 {
            proof {
                assert(all_digits(p)) by {
                    assert forall|k: int| 0 <= k < p.len() implies '0' <= #[trigger] p[k] <= '9' by {
                        if k < p.len() - 1 {
                            assert(p[k] == s@.subrange(start as int, i as int)[k]);
                        }
                    }
                }
                assert(digits_value(p) == value * 10 + digit);
                assert(value * 10 + digit > u64::MAX) by (nonlinear_arith)
                    requires
                        value > (u64::MAX - digit) / 10,
                        digit <= 9,
                ;
                if all_digits(d) {
                    assert(p =~= d.subrange(0, (i + 1 - start) as int));
                    lemma_digits_monotone(d, (i + 1 - start) as int);
                }
            }
            return None;
        }
        proof {
            assert(value * 10 + digit <= u64::MAX) by (nonlinear_arith)
                requires
                    value <= (u64::MAX - digit) / 10,
                    digit <= 9,
            ;
        }
        value = value * 10 + digit;
        i = i + 1;
        proof {
            assert(all_digits(s@.subrange(start as int, i as int))) by {
                assert forall|k: int| 0 <= k < p.len() implies '0' <= #[trigger] p[k] <= '9' by {
                    if k < p.len() - 1 {
                        assert(p[k] == s@.subrange(start as int, (i - 1) as int)[k]);
                    }
                }
            }
        }
    }
    proof {
        assert(s@.subrange(start as int, i as int) == d);
    }
    Some(value)
}

/// Parses a `u64` the way `str::parse` does.
pub fn parse_u64_str(s: &str) -> (r: Option<u64>)
    ensures
        r == parse_u64(s@),
{
    let n = s.unicode_len();
    if n > 1 && s.get_char(0) == '+' {
        let r = parse_digits(s, 1);
        proof {
            assert(s@.subrange(1, n as int) =~= s@.drop_first());
        }
        r
    } else {
        let r = parse_digits(s, 0);
        proof {
            assert(s@.subrange(0, n as int) =~= s@);
        }
        r
    }
}

/// `s` begins with the ASCII prefix `p`.
pub open spec fn has_prefix(s: Seq<char>, p: Seq<char>) -> bool {
    p.len() <= s.len() && s.subrange(0, p.len() as int) == p
}

/// The contract counter after deploying under the explicit identifier `id`:
/// an identifier `contract-N` at or above the counter moves it to `N + 1`.
pub open spec fn bumped_counter(next: u64, id: Seq<char>) -> u64 {
    let prefix = "contract-"@;
    if has_prefix(id, prefix) {
        match parse_u64(id.subrange(prefix.len() as int, id.len() as int)) {
            Some(num) if num >= next => wrap_add(num, 1),
            _ => next,
        }
    } else {
        next
    }
}

/// The text of an optional string, empty when absent.
pub open spec fn text_or_empty(o: Option<String>) -> Seq<char> {
    match o {
        Some(s) => s@,
        None => Seq::empty(),
    }
}

/// How a deployment turns out, as plain values.
pub struct DeployPlan {
    /// The contract identifier (given or allocated).
    pub id: Seq<char>,
    /// The contract counter once the identifier is settled.
    pub counter: u64,
    /// The refusal, if any, after the identifier is settled.
    pub refusal: Option<(ErrorCode, Seq<char>)>,
    /// The stored source code.
    pub code: Seq<char>,
    /// The stored program identifier.
    pub program_id: Option<Seq<char>>,
    /// The stored bytecode.
    pub bytecode: Option<Seq<char>>,
    /// The code hash.
    pub code_hash: Seq<char>,
}

/// The plan of a deployment whose identifier is settled.
pub open spec fn deploy_plan(
    id: Seq<char>,
    counter: u64,
    code: Option<String>,
    runtime: ContractRuntime,
    program_id: Option<String>,
    bytecode_b64: Option<String>,
) -> DeployPlan {
    let source = text_or_empty(code);
    let refuse = |m: Seq<char>|
        DeployPlan {
            id,
            counter,
            refusal: Some((ErrorCode::InvalidTransaction, m)),
            code: source,
            program_id: None,
            bytecode: None,
            code_hash: Seq::empty(),
        };
    match runtime {
        ContractRuntime::Native => if trim(source).len() == 0 {
            refuse("native contract code cannot be empty"@)
        } else {
            DeployPlan {
                id,
                counter,
                refusal: None,
                code: source,
                program_id: None,
                bytecode: None,
                code_hash: hex_digits(default_hash_parts(seq![id, "native"@, source]) as nat, 16),
            }
        },
        ContractRuntime::Solana => match program_id {
            None => refuse("solana deployments require program_id"@),
            Some(pid) => if trim(pid@).len() == 0 {
                refuse("solana deployments require a non-empty program_id"@)
            } else if bytecode_b64 is None && trim(source).len() == 0 {
                refuse("solana deployments require base64 bytecode"@)
            } else {
                let bc = match bytecode_b64 {
                    Some(b) => b@,
                    None => source,
                };
                let src = if bytecode_b64 is None {
                    Seq::empty()
                } else {
                    source
                };
                if trim(bc).len() == 0 {
                    refuse("solana bytecode cannot be empty"@)
                } else if !base64_decodes(bc) {
                    refuse("solana bytecode must be valid base64"@)
                } else {
                    DeployPlan {
                        id,
                        counter,
                        refusal: None,
                        code: src,
                        program_id: Some(trim(pid@)),
                        bytecode: Some(bc),
                        code_hash: hex_digits(
                            default_hash_parts(seq![id, "solana"@, bc, trim(pid@)]) as nat,
                            16,
                        ),
                    }
                }
            },
        },
    }
}

/// `c` is the record a deployment following `plan` stores.
pub open spec fn deployed_as(
    c: SmartContract,
    plan: DeployPlan,
    owner: String,
    name: String,
    metadata: Option<String>,
    runtime: ContractRuntime,
    deployed_at: u64,
) -> bool {
    &&& c.id@ == plan.id
    &&& c.owner == owner
    &&& c.name == name
    &&& c.code@ == plan.code
    &&& c.code_hash@ == plan.code_hash
    &&& c.metadata == metadata
    &&& c.deployed_at == deployed_at
    &&& c.runtime == runtime
    &&& match (c.program_id, plan.program_id) {
        (Some(a), Some(b)) => a@ == b,
        (None, None) => true,
        _ => false,
    }
    &&& match (c.bytecode_b64, plan.bytecode) {
        (Some(a), Some(b)) => a@ == b,
        (None, None) => true,
        _ => false,
    }
}

/// The name of the next allocated contract: `contract-N`.
pub open spec fn allocated_contract_id(next: u64) -> Seq<char> {
    "contract-"@ + decimal(next as nat)
}

/// The effect of `apply_deploy_contract`: Deploys a contract.
pub open spec fn deploy_contract_effect(pre: Ledger, post: Ledger, r: Result<(), LedgerError>, owner: String, contract_id: Option<String>, name: String, code: Option<String>, metadata: Option<String>, runtime: ContractRuntime, program_id: Option<String>, bytecode_b64: Option<String>, timestamp: u64) -> bool {
    &&& post.followups == pre.followups
    &&& post.state == (LedgerState {
            accounts: post.state.accounts,
            contracts: post.state.contracts,
            next_contract_id: post.state.next_contract_id,
            ..pre.state
        })
    &&& ({
            let pre = pre.state;
            let post = post.state;
            let given = text_or_empty(contract_id);
            if trim(given).len() != 0 && pre.contracts@.contains_key(given) {
                fails_with(
                    r,
                    (ErrorCode::InvalidTransaction, "contract "@ + given + " already exists"@),
                ) && post == pre
            } else {
                let plan = if trim(given).len() == 0 {
                    deploy_plan(
                        allocated_contract_id(pre.next_contract_id),
                        wrap_add(pre.next_contract_id, 1),
                        code,
                        runtime,
                        program_id,
                        bytecode_b64,
                    )
                } else {
                    deploy_plan(
                        given,
                        bumped_counter(pre.next_contract_id, given),
                        code,
                        runtime,
                        program_id,
                        bytecode_b64,
                    )
                };
                &&& post.next_contract_id == plan.counter
                &&& match plan.refusal {
                    Some(f) => {
                        &&& fails_with(r, f)
                        &&& post.contracts == pre.contracts
                        &&& post.accounts == pre.accounts
                    },
                    None => {
                        &&& r is Ok
                        &&& post.contracts@.dom() == pre.contracts@.dom().insert(plan.id)
                        &&& forall|k: Seq<char>| #[trigger]
                            post.contracts@.contains_key(k) && k != plan.id ==> post.contracts@[k]
                                == pre.contracts@[k]
                        &&& deployed_as(
                            post.contracts@[plan.id],
                            plan,
                            owner,
                            name,
                            metadata,
                            runtime,
                            timestamp,
                        )
                        &&& accounts_of(post) == accounts_of(pre).insert(
                            owner@,
                            account_or_fresh(accounts_of(pre), owner@),
                        )
                    },
                }
            }
        })
}

/// The effect of `apply_execute_contract`: Records a call of an existing contract.
pub open spec fn execute_contract_effect(pre: Ledger, post: Ledger, r: Result<(), LedgerError>, contract_id: String, caller: String, method: String, payload: String, timestamp: u64) -> bool {
    &&& post.followups == pre.followups
    &&& post.state == (LedgerState {
            contract_events: post.state.contract_events,
            ..pre.state
        })
    &&& if !pre.state.contracts@.contains_key(contract_id@) {
            fails_with(r, (ErrorCode::ContractNotFound, contract_id@)) && post.state
                == pre.state
        } else {
            let events = post.state.contract_events@;
            let e = events.last();
            &&& r is Ok
            &&& events.drop_last() == pre.state.contract_events@
            &&& e.id@ == "event-"@ + contract_id@ + "-"@ + decimal(
                wrap_add(pre.state.contract_events@.len() as u64, 1) as nat,
            )
            &&& e.contract_id == contract_id
            &&& e.caller == caller
            &&& e.method == method
            &&& e.payload == payload
            &&& e.payload_hash@ == hex_digits(
                default_hash_parts(seq![contract_id@, payload@, method@]) as nat,
                16,
            )
            &&& e.timestamp == timestamp
        }
}

impl Ledger {
    /// Allocates the next contract identifier, `contract-N`, and advances the counter.
    pub fn next_contract_identifier(&mut self) -> (id: String)
        requires
            old(self).wf(),
        ensures
            final(self).wf(),
            final(self).followups == old(self).followups,
            final(self).state == (LedgerState {
                next_contract_id: wrap_add(old(self).state.next_contract_id, 1),
                ..old(self).state
            }),
            id@ == allocated_contract_id(old(self).state.next_contract_id),
    {
        let mut id = String::from_str("contract-");
        write_decimal(&mut id, self.state.next_contract_id);
        self.state.next_contract_id = wrapping_add_u64(self.state.next_contract_id, 1);
        id
    }

    /// Moves the contract counter past an explicit identifier `contract-N`.
    pub fn bump_contract_counter_from(&mut self, contract_id: &str)
        requires
            old(self).wf(),
        ensures
            final(self).wf(),
            final(self).followups == old(self).followups,
            final(self).state == (LedgerState {
                next_contract_id: bumped_counter(old(self).state.next_contract_id, contract_id@),
                ..old(self).state
            }),
    {
        let prefix = "contract-";
        proof {
            reveal_strlit("contract-");
        }
        let n = contract_id.unicode_len();
        if n < 9 {
            return;
        }
        let head = contract_id.substring_char(0, 9);
        if !str_eq(head, prefix) {
            return;
        }
        let tail = contract_id.substring_char(9, n);
        match parse_u64_str(tail) {
            Some(num) => {
                if num >= self.state.next_contract_id {
                    self.state.next_contract_id = wrapping_add_u64(num, 1);
                }
            },
            None => {},
        }
    }

    /// Deploys a contract.
    pub fn apply_deploy_contract(
        &mut self,
        owner: &String,
        contract_id: &Option<String>,
        name: &String,
        code: &Option<String>,
        metadata: &Option<String>,
        runtime: ContractRuntime,
        program_id: &Option<String>,
        bytecode_b64: &Option<String>,
        timestamp: u64,
    ) -> (r: Result<(), LedgerError>)
        requires
            old(self).wf(),
        ensures
            final(self).wf(),
            deploy_contract_effect(*old(self), *final(self), r, *owner, *contract_id, *name, *code, *metadata, runtime, *program_id, *bytecode_b64, timestamp),
    {
        let given: String = match contract_id {
            Some(s) => s.clone(),
            None => String::new(),
        };
        let id: String;
        if is_blank(given.as_str()) {
            id = self.next_contract_identifier();
        } else if self.state.contracts.contains_key(given.as_str()) {
            let mut msg = String::from_str("contract ");
            msg.append(given.as_str());
            msg.append(" already exists");
            return Err(LedgerError::InvalidTransaction(msg));
        } else {
            self.bump_contract_counter_from(given.as_str());
            id = given;
        }
        let mut source: String = match code {
            Some(s) => s.clone(),
            None => String::new(),
        };
        let mut bytecode: Option<String> = bytecode_b64.clone();
        let normalized_program: Option<String>;
        match runtime {
            ContractRuntime::Native => {
                if is_blank(source.as_str()) {
                    return Err(
                        LedgerError::InvalidTransaction(
                            String::from_str("native contract code cannot be empty"),
                        ),
                    );
                }
                normalized_program = None;
                bytecode = None;
            },
            ContractRuntime::Solana => {
                let provided = match program_id {
                    Some(p) => p,
                    None => {
                        return Err(
                            LedgerError::InvalidTransaction(
                                String::from_str("solana deployments require program_id"),
                            ),
                        );
                    },
                };
                let pid = trimmed(provided.as_str());
                if pid.unicode_len() == 0 {
                    return Err(
                        LedgerError::InvalidTransaction(
                            String::from_str("solana deployments require a non-empty program_id"),
                        ),
                    );
                }
                normalized_program = Some(pid);
                if bytecode.is_none() {
                    if is_blank(source.as_str()) {
                        return Err(
                            LedgerError::InvalidTransaction(
                                String::from_str("solana deployments require base64 bytecode"),
                            ),
                        );
                    }
                    bytecode = Some(source);
                    source = String::new();
                }
                let encoded: &String = match &bytecode {
                    Some(b) => b,
                    None => {
                        return Err(
                            LedgerError::InvalidTransaction(
                                String::from_str("solana bytecode cannot be empty"),
                            ),
                        );
                    },
                };
                if is_blank(encoded.as_str()) {
                    return Err(
                        LedgerError::InvalidTransaction(
                            String::from_str("solana bytecode cannot be empty"),
                        ),
                    );
                }
                if !decodes_as_base64(encoded.as_str()) {
                    return Err(
                        LedgerError::InvalidTransaction(
                            String::from_str("solana bytecode must be valid base64"),
                        ),
                    );
                }
            },
        }
        let digest = match (&normalized_program, &bytecode) {
            (Some(pid), Some(bc)) => {
                let parts = vec![id.as_str(), runtime.as_str(), bc.as_str(), pid.as_str()];
                proof {
                    assert(part_texts(parts@) =~= seq![id@, runtime.spec_name(), bc@, pid@]);
                }
                hash_parts(&parts)
            },
            _ => {
                let parts = vec![id.as_str(), runtime.as_str(), source.as_str()];
                proof {
                    assert(part_texts(parts@) =~= seq![id@, runtime.spec_name(), source@]);
                }
                hash_parts(&parts)
            },
        };
        let contract = SmartContract {
            id: id.clone(),
            owner: owner.clone(),
            name: name.clone(),
            code: source,
            code_hash: hex16(digest),
            metadata: metadata.clone(),
            deployed_at: timestamp,
            runtime,
            program_id: normalized_program,
            bytecode_b64: bytecode,
        };
        self.state.contracts.insert(id, contract);
        self.get_or_create_account(owner.as_str());
        Ok(())
    }

    /// Appends a contract event; an event without identifier is named
    /// `event-<contract>-<position>`, counting from one.
    pub fn record_contract_event(&mut self, event: ContractEvent)
        requires
            old(self).wf(),
        ensures
            final(self).wf(),
            final(self).followups == old(self).followups,
            final(self).state == (LedgerState {
                contract_events: final(self).state.contract_events,
                ..old(self).state
            }),
            final(self).state.contract_events@.len() == old(self).state.contract_events@.len() + 1,
            final(self).state.contract_events@.drop_last() == old(self).state.contract_events@,
            ({
                let e = final(self).state.contract_events@.last();
                &&& e == (ContractEvent { id: e.id, ..event })
                &&& e.id@ == if event.id@.len() == 0 {
                    "event-"@ + event.contract_id@ + "-"@ + decimal(
                        wrap_add(old(self).state.contract_events@.len() as u64, 1) as nat,
                    )
                } else {
                    event.id@
                }
            }),
    {
        let mut event = event;
        if event.id.unicode_len() == 0 {
            let idx = wrapping_add_u64(self.state.contract_events.len() as u64, 1);
            let mut id = String::from_str("event-");
            id.append(event.contract_id.as_str());
            id.append("-");
            write_decimal(&mut id, idx);
            event.id = id;
        }
        self.state.contract_events.push(event);
        proof {
            assert(self.state.contract_events@.drop_last() =~= old(self).state.contract_events@);
        }
    }

    /// Records a call of an existing contract.
    pub fn apply_execute_contract(
        &mut self,
        contract_id: &String,
        caller: &String,
        method: &String,
        payload: &String,
        timestamp: u64,
    ) -> (r: Result<(), LedgerError>)
        requires
            old(self).wf(),
        ensures
            final(self).wf(),
            execute_contract_effect(*old(self), *final(self), r, *contract_id, *caller, *method, *payload, timestamp),
    {
        if !self.state.contracts.contains_key(contract_id.as_str()) {
            return Err(LedgerError::ContractNotFound(contract_id.clone()));
        }
        let parts = vec![contract_id.as_str(), payload.as_str(), method.as_str()];
        proof {
            assert(part_texts(parts@) =~= seq![contract_id@, payload@, method@]);
        }
        let payload_hash = hex16(hash_parts(&parts));
        let event = ContractEvent {
            id: String::new(),
            contract_id: contract_id.clone(),
            caller: caller.clone(),
            method: method.clone(),
            payload: payload.clone(),
            payload_hash,
            timestamp,
        };
        self.record_contract_event(event);
        Ok(())
    }
}

} // verus!
