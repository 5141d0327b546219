//! What the command line reads and prints.

use vstd::prelude::*;
use vstd::string::*;

use crate::bytes::Digest;
use crate::checkpoint::{CertifiedCheckpointSummary, SummaryView};
use crate::committee::{total_stake, Committee, EpochId};
use crate::sdk;
use crate::sdk::{digest_from_base58, digest_to_base58};
use crate::text::{decimal, decimal_text};

verus! {

/// Reads a transaction digest from the command line, or says that it cannot.
pub fn parse_transaction_digest(text: &str) -> (digest: Result<Digest, String>)
    ensures
        match digest {
            Ok(digest) => digest_from_base58(text@) == Some(digest),
            Err(message) => digest_from_base58(text@) is None && message@
                == "failed to parse transaction digest "@ + text@,
        },
{
    match sdk::parse_digest(text) {
        Ok(digest) => Ok(digest),
        Err(_) => {
            let mut message = "failed to parse transaction digest ".to_owned();
            message.append(text);
            Err(message)
        },
    }
}

/// What is printed of a checkpoint.
pub open spec fn checkpoint_lines(summary: SummaryView) -> Seq<char> {
    "\ncheckpoint: "@ + digest_to_base58(summary.digest) + "\ncheckpoint sequence number: "@
        + decimal(summary.sequence_number as nat) + "\nepoch: "@ + decimal(summary.epoch as nat)
}

fn append_checkpoint(text: &mut String, summary: &CertifiedCheckpointSummary)
    ensures
        final(text)@ == old(text)@ + checkpoint_lines(summary@),
{
    let ghost before = text@;
    text.append("\ncheckpoint: ");
    text.append(sdk::digest_text(summary.digest()).as_str());
    text.append("\ncheckpoint sequence number: ");
    text.append(decimal_text(summary.sequence_number() as u128).as_str());
    text.append("\nepoch: ");
    text.append(decimal_text(summary.epoch() as u128).as_str());
    assert(text@ =~= before + checkpoint_lines(summary@));
}

/// The report on a proof that was written to `output`.
pub fn created_proof_report(output: &str, summary: &CertifiedCheckpointSummary) -> (report: String)
    ensures
        report@ == "created proof "@ + output@ + checkpoint_lines(summary@),
{
    let mut report = "created proof ".to_owned();
    report.append(output);
    append_checkpoint(&mut report, summary);
    report
}

/// The report on a proof that was read from `path` and holds against `committee`.
pub fn verified_proof_report(
    path: &str,
    summary: &CertifiedCheckpointSummary,
    committee: &Committee,
) -> (report: String)
    ensures
        report@ == "verified proof "@ + path@ + checkpoint_lines(summary@) + "\ncommittee epoch: "@
            + decimal(committee@.epoch as nat),
{
    let mut report = "verified proof ".to_owned();
    report.append(path);
    append_checkpoint(&mut report, summary);
    report.append("\ncommittee epoch: ");
    report.append(decimal_text(committee.epoch() as u128).as_str());
    report
}

/// The report on a committee that was fetched and written to `output`.
pub fn fetched_committee_report(output: &str, committee: &Committee) -> (report: String)
    ensures
        report@ == "fetched committee "@ + output@ + "\nepoch: "@ + decimal(
            committee@.epoch as nat,
        ) + "\nvoting rights: "@ + decimal(total_stake(committee@.members)),
{
    let mut report = "fetched committee ".to_owned();
    report.append(output);
    report.append("\nepoch: ");
    report.append(decimal_text(committee.epoch() as u128).as_str());
    report.append("\nvoting rights: ");
    report.append(decimal_text(committee.total_votes()).as_str());
    report
}

/// The report on a committee that was reached from that of `trusted_epoch` and
/// written to `output`.
pub fn walked_committee_report(
    output: &str,
    trusted_epoch: EpochId,
    committee: &Committee,
) -> (report: String)
    ensures
        report@ == "verified committee "@ + output@ + "\ntrusted epoch: "@ + decimal(
            trusted_epoch as nat,
        ) + "\ntarget epoch: "@ + decimal(committee@.epoch as nat) + "\nvoting rights: "@ + decimal(
            total_stake(committee@.members),
        ),
{
    let mut report = "verified committee ".to_owned();
    report.append(output);
    report.append("\ntrusted epoch: ");
    report.append(decimal_text(trusted_epoch as u128).as_str());
    report.append("\ntarget epoch: ");
    report.append(decimal_text(committee.epoch() as u128).as_str());
    report.append("\nvoting rights: ");
    report.append(decimal_text(committee.total_votes()).as_str());
    report
}

} // verus!
