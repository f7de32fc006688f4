//! The outer entry: rejects an invocation that does not target this
//! program's identity, then hands it to the processor.

use vstd::prelude::*;

use crate::addr::Address;
use crate::error::{HitMyBetError, ProgramFailure};
use crate::processor::{
    spec_instruction_fits, spec_process_instruction, views_of, AccountRecord, AccountView,
    HostParams,
};
use crate::ConfigView;
use crate::ProgramConfig;

verus! {

/// What the whole invocation must decide: nothing unless it targets
/// this program's identity; otherwise exactly what the processor
/// decides.
pub open spec fn spec_entry(
    cfg: ConfigView,
    env: HostParams,
    program_id: Seq<u8>,
    accounts: Seq<AccountView>,
    instruction_data: Seq<u8>,
) -> Result<Seq<AccountView>, ProgramFailure> {
    if program_id != cfg.program_id {
        Err(ProgramFailure::Custom(HitMyBetError::IncorrectProgramId))
    } else {
        spec_process_instruction(cfg, env, program_id, accounts, instruction_data)
    }
}

/// Rejects an invocation that targets any identity but this program's.
fn assert_hit_my_bet_program_id(config: &ProgramConfig, program_id: &Address) -> (r: Result<
    (),
    HitMyBetError,
>)
    ensures
        r is Ok <==> program_id@ == config@.program_id,
        r is Err ==> r->Err_0 == HitMyBetError::IncorrectProgramId,
{
    if !config.check_id(program_id) {
        Err(HitMyBetError::IncorrectProgramId)
    } else {
        Ok(())
    }
}

/// Processes one whole invocation: checks the target identity, then
/// decodes and dispatches the instruction.
pub fn process_instruction(
    config: &ProgramConfig,
    env: &HostParams,
    program_id: &Address,
    accounts: &Vec<AccountRecord>,
    instruction_data: &Vec<u8>,
) -> (r: Result<Vec<AccountRecord>, ProgramFailure>)
    requires
        spec_instruction_fits(config@, *env, views_of(accounts@), instruction_data@),
    ensures
        ({
            let s = spec_entry(
                config@,
                *env,
                program_id@,
                views_of(accounts@),
                instruction_data@,
            );
            match r {
                Ok(out) => s == Ok::<Seq<AccountView>, ProgramFailure>(views_of(out@)),
                Err(e) => s == Err::<Seq<AccountView>, ProgramFailure>(e),
            }
        }),
{
    match assert_hit_my_bet_program_id(config, program_id) {
        Err(e) => {
            return Err(ProgramFailure::Custom(e));
        },
        Ok(()) => {},
    }
    crate::processor::process_instruction(config, env, program_id, accounts, instruction_data)
}

} // verus!
