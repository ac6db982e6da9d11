//! Recovering a pending switch without anybody asking for it.

use crate::account::Account;
use crate::switch_recovery::{user_side, Record};
use crate::text;
use crate::text::outcome;
use vstd::prelude::*;

verus! {

pub fn check_service(root: bool, native: bool) -> (r: Result<(), String>)
    ensures
        outcome(r) == if root && native {
            Ok(())
        } else {
            Err("Automatic recovery requires the installed native system service"@)
        },
{
    if root && native {
        Ok(())
    } else {
        Err("Automatic recovery requires the installed native system service".to_owned())
    }
}

/// What to recover: nothing, which is said, or the switch of that identifier.
pub enum Pending {
    Nothing { message: String },
    Switch { id: String },
}

/// What is found to recover, as values.
pub open spec fn found(r: Result<Pending, String>) -> Result<(bool, Seq<char>), Seq<char>> {
    match r {
        Ok(Pending::Nothing { message }) => Ok((false, message@)),
        Ok(Pending::Switch { id }) => Ok((true, id@)),
        Err(e) => Err(e@),
    }
}

/// What a journal leaves to recover, where `account` is the account of its switch as it is now.
pub open spec fn pending_of(
    root: bool,
    native: bool,
    journal: Result<Option<Record>, String>,
    account: Result<Account, String>,
) -> Result<(bool, Seq<char>), Seq<char>> {
    if !(root && native) {
        Err("Automatic recovery requires the installed native system service"@)
    } else {
        match journal {
            Err(e) => Err(e@),
            Ok(None) => Ok((false, "No service switch needs recovery."@)),
            Ok(Some(record)) => match account {
                Err(e) => Err(e@),
                Ok(account) => if record.intent.caller_name@ != account.name@ {
                    Err(
                        "The pending switch account changed. Preserve its journal for administrator recovery"@,
                    )
                } else {
                    Ok((true, record.intent.id@))
                },
            },
        }
    }
}

/// What the system service has to recover: `journal` was loaded under the lock of service operations,
/// and `account` is what is known of the account for which it can be recovered.
pub fn run(
    root: bool,
    native: bool,
    journal: &Result<Option<Record>, String>,
    account: &Result<Account, String>,
) -> (r: Result<Pending, String>)
    requires
        journal matches Ok(Some(record)) && account matches Ok(account) ==> account.uid
            == user_side(record.intent).uid,
    ensures
        found(r) == pending_of(root, native, *journal, *account),
{
    check_service(root, native)?;
    match journal {
        Err(e) => Err(e.clone()),
        Ok(None) => Ok(
            Pending::Nothing { message: "No service switch needs recovery.".to_owned() },
        ),
        Ok(Some(record)) => match account {
            Err(e) => Err(e.clone()),
            Ok(account) => {
                if !text::eq(record.intent.caller_name.as_str(), account.name.as_str()) {
                    return Err(
                        "The pending switch account changed. Preserve its journal for administrator recovery".to_owned(),
                    );
                }
                Ok(Pending::Switch { id: record.intent.id.clone() })
            },
        },
    }
}

/// Whether a login should look for a switch to recover: on a host with the recovery service.
pub fn trigger(native: bool, installed: bool) -> (r: bool)
    ensures
        r == (native && installed),
{
    native && installed
}

/// Recovery begins by itself exactly for root on the host, where the journal can be read. A switch in
/// it is recovered under its own identifier, if the account that began it still has its name.
pub proof fn recovery_begins_for_the_recorded_switch(
    root: bool,
    native: bool,
    journal: Result<Option<Record>, String>,
    account: Result<Account, String>,
)
    ensures
        ({
            let pending = pending_of(root, native, journal, account);
            let record = journal->Ok_0->0;
            &&& pending is Ok <==> {
                &&& root && native
                &&& journal is Ok
                &&& journal->Ok_0 is Some ==> account is Ok && account->Ok_0.name@
                    == record.intent.caller_name@
            }
            &&& pending is Ok ==> (pending->Ok_0.0 <==> journal->Ok_0 is Some)
            &&& pending is Ok && journal->Ok_0 is Some ==> pending->Ok_0.1 == record.intent.id@
        }),
{
}

} // verus!
