//! `create`: clones a template VM under a new name and records it.
use vstd::prelude::*;
use crate::cli::{CloneArgs, OsType, os_name};
use crate::config::{EffectiveConfig, template_of};
use crate::errors::ExitCode;
use crate::models::{OperationResult, Timestamp, VmInfo, opt_view, plain_result};
use crate::naming::{NameError, generate_name, generated, name_error_message, name_result_view};
use crate::state::{VmMetadata, VmMetadataView};
use crate::text::{push_str, to_owned};
use crate::utm::strings_view;
use super::{Outcome, err_outcome, ok_outcome, reply_err, reply_ok};
use super::lifecycle::chosen_prefix;

verus! {

/// The template to clone: the one given, else the one configured for the OS.
pub open spec fn chosen_template(
    given: Option<Seq<char>>,
    cfg: crate::config::EffectiveConfigView,
    os: OsType,
) -> Seq<char> {
    match given {
        Some(t) => t,
        None => template_of(cfg, os),
    }
}

/// The template given with `--template` is cloned as it is; without it,
/// each OS clones the template configured for that OS.
pub proof fn law_template_for_requested_os(
    t: Seq<char>,
    cfg: crate::config::EffectiveConfigView,
)
    ensures
        chosen_template(Some(t), cfg, OsType::Linux) == t,
        chosen_template(Some(t), cfg, OsType::Macos) == t,
        chosen_template(None, cfg, OsType::Linux) == cfg.template_linux,
        chosen_template(None, cfg, OsType::Macos) == cfg.template_macos,
{
}

/// Picks the template to clone.
pub fn choose_template(args: &CloneArgs, cfg: &EffectiveConfig) -> (r: String)
    ensures
        r@ == chosen_template(opt_view(args.template), cfg@, args.os_type),
        args.template matches Some(t) ==> r@ == t@,
        args.template is None && args.os_type == OsType::Linux ==> r@ == cfg.template_linux@,
        args.template is None && args.os_type == OsType::Macos ==> r@ == cfg.template_macos@,
{
    match &args.template {
        Some(t) => t.clone(),
        None => to_owned(cfg.template_for(args.os_type)),
    }
}

/// The names of the listed VMs.
pub fn vm_names(vms: &Vec<VmInfo>) -> (r: Vec<String>)
    ensures
        strings_view(r@) == vms@.map_values(|v: VmInfo| v.name@),
{
    let mut names: Vec<String> = Vec::new();
    let mut i: usize = 0;
    while i < vms.len()
        invariant
            i <= vms.len(),
            strings_view(names@) == vms@.take(i as int).map_values(|v: VmInfo| v.name@),
        decreases vms.len() - i,
    {
        let ghost before = names@;
        names.push(vms[i].name.clone());
        assert(strings_view(names@) =~= strings_view(before).push(vms@[i as int].name@));
        assert(strings_view(names@) =~= vms@.take(i + 1).map_values(|v: VmInfo| v.name@));
        i += 1;
    }
    assert(vms@.take(vms.len() as int) =~= vms@);
    names
}

/// The plain value of an optional string, as a slice.
pub fn opt_as_str(o: &Option<String>) -> (r: Option<&str>)
    ensures
        crate::naming::opt_str_view(r) == opt_view(*o),
{
    match o {
        Some(s) => Some(s.as_str()),
        None => None,
    }
}

/// Chooses the new VM's name with the command's arguments: the prefix given,
/// else the configured one, and the configured naming rules.
pub fn choose_vm_name(args: &CloneArgs, cfg: &EffectiveConfig, existing: &Vec<String>) -> (r:
    Result<String, NameError>)
    ensures
        generated(
            name_result_view(r),
            chosen_prefix(opt_view(args.prefix), cfg@.default_prefix),
            cfg@.naming_template,
            cfg.naming_rand_len,
            cfg.naming_max_retries,
            args.os_type,
            opt_view(args.name),
            args.name_exact,
            opt_view(args.name_template),
            existing@,
        ),
{
    let prefix = super::lifecycle::choose_prefix(&args.prefix, cfg.default_prefix.as_str());
    generate_name(
        prefix.as_str(),
        cfg.naming_template.as_str(),
        cfg.naming_rand_len,
        cfg.naming_max_retries,
        args.os_type,
        opt_as_str(&args.name),
        args.name_exact,
        opt_as_str(&args.name_template),
        existing,
    )
}

/// How a command ends when no name could be chosen.
pub fn name_conflict(command: &str, err: &NameError) -> (o: Outcome<OperationResult>)
    ensures
        err_outcome(o, command@, name_error_message(err@), ExitCode::Conflict),
{
    reply_err(command, err.message(), ExitCode::Conflict)
}

/// The outcome of `create` under `--dry-run`.
pub fn create_dry_run(name: &str, template: &str) -> (o: Outcome<OperationResult>)
    ensures
        ok_outcome(
            o,
            "create"@,
            plain_result(
                true,
                "create"@,
                name@,
                "dry-run: would clone '"@ + name@ + "' from '"@ + template@ + "'"@,
            ),
        ),
{
    let mut msg = to_owned("dry-run: would clone '");
    push_str(&mut msg, name);
    push_str(&mut msg, "' from '");
    push_str(&mut msg, template);
    push_str(&mut msg, "'");
    reply_ok("create", OperationResult::new(true, "create", name, msg))
}

/// The note shown before cloning.
pub fn cloning_notice(template: &str, name: &str) -> (r: String)
    ensures
        r@ == "cloning '"@ + template@ + "' to '"@ + name@ + "'"@,
{
    let mut r = to_owned("cloning '");
    push_str(&mut r, template);
    push_str(&mut r, "' to '");
    push_str(&mut r, name);
    push_str(&mut r, "'");
    r
}

/// What is recorded of a VM just cloned.
pub fn new_vm_metadata(name: &str, os: OsType, template: &str, created_at: Timestamp) -> (r:
    VmMetadata)
    ensures
        r@ == (VmMetadataView {
            name: name@,
            os: Some(os_name(os)),
            template: Some(template@),
            created_at,
        }),
{
    VmMetadata {
        name: to_owned(name),
        os: Some(to_owned(os.as_str())),
        template: Some(to_owned(template)),
        created_at,
    }
}

/// How `create` ends when cloning failed with `message`.
pub fn create_failed(message: String) -> (o: Outcome<OperationResult>)
    ensures
        err_outcome(o, "create"@, message@, ExitCode::ExternalCommandFailed),
{
    reply_err("create", message, ExitCode::ExternalCommandFailed)
}

/// How `create` ends once the clone is made and recorded.
pub fn create_done(name: &str) -> (o: Outcome<OperationResult>)
    ensures
        ok_outcome(
            o,
            "create"@,
            plain_result(true, "create"@, name@, "create completed successfully"@),
        ),
{
    reply_ok(
        "create",
        OperationResult::new(true, "create", name, to_owned("create completed successfully")),
    )
}

} // verus!
