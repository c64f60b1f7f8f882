//! The catalog commands of `warpctrl`: what `action` and `capability`
//! list and inspect.
use crate::cli::{ActionCatalogCommand, AppCommand, CapabilityCommand, CatalogFilterArgs, InstanceCommand, OutputFormat, TabCommand, TargetArgs};
use crate::protocol::{
    action_name, all_actions, is_request_allowlisted, lemma_all_actions_complete, status_of, ActionImplementationStatus, ActionKind,
    ActionMetadata, ControlError, ErrorCode, PermissionCategory, TargetScope,
};
use crate::text::{concat2, decimal_string, decimal_text, owned, str_eq};
use vstd::prelude::*;

verus! {

/// The row of the catalog table.
#[derive(Clone, PartialEq, Eq, Debug)]
pub struct CatalogActionSummary {
    pub name: String,
    pub implementation_status: ActionImplementationStatus,
    pub requires_authenticated_user: bool,
    pub target_scope: TargetScope,
    pub permission_category: PermissionCategory,
}

impl CatalogActionSummary {
    pub fn from_metadata(metadata: ActionMetadata) -> (s: CatalogActionSummary)
        ensures
            s.name == metadata.name,
            s.implementation_status == metadata.implementation_status,
            s.requires_authenticated_user == metadata.requires_authenticated_user,
            s.target_scope == metadata.target_scope,
            s.permission_category == metadata.permission_category,
    {
        CatalogActionSummary {
            name: metadata.name,
            implementation_status: metadata.implementation_status,
            requires_authenticated_user: metadata.requires_authenticated_user,
            target_scope: metadata.target_scope,
            permission_category: metadata.permission_category,
        }
    }
}

/// Which catalog entries a listing keeps: implemented ones only, stubs only,
/// or all, the first flag winning over the second.
pub open spec fn kept_by(args: CatalogFilterArgs, kind: ActionKind) -> bool {
    if args.implemented_only {
        status_of(kind) == ActionImplementationStatus::Implemented
    } else if args.stubs_only {
        status_of(kind) == ActionImplementationStatus::Stub
    } else {
        true
    }
}

pub open spec fn filter_pred(args: CatalogFilterArgs) -> spec_fn(ActionKind) -> bool {
    |k: ActionKind| kept_by(args, k)
}

/// The actions a listing shows, in catalog order.
pub open spec fn catalog_listing(args: CatalogFilterArgs) -> Seq<ActionKind> {
    all_actions().filter(filter_pred(args))
}

/// The catalog entries of the actions that `args` keeps, in catalog order.
pub fn catalog_list(args: CatalogFilterArgs) -> (r: Vec<ActionMetadata>)
    ensures
        r@.len() == catalog_listing(args).len(),
        forall|i: int| 0 <= i < r@.len() ==> (#[trigger] r@[i]).describes(catalog_listing(args)[i]),
{
    let all = ActionKind::all();
    let ghost pred = filter_pred(args);
    let mut r: Vec<ActionMetadata> = Vec::new();
    let mut i: usize = 0;
    while i < all.len()
        invariant
            all@ == all_actions(),
            pred == filter_pred(args),
            i <= all@.len(),
            r@.len() == all@.take(i as int).filter(pred).len(),
            forall|j: int| 0 <= j < r@.len() ==> (#[trigger] r@[j]).describes(all@.take(i as int).filter(pred)[j]),
        decreases all@.len() - i,
    {
        let k = all[i];
        let metadata = k.metadata();
        proof {
            assert(all@.take(i + 1) =~= all@.take(i as int).push(k));
            all@.take(i as int).lemma_filter_push(k, pred);
        }
        let keep = if args.implemented_only {
            metadata.implementation_status == ActionImplementationStatus::Implemented
        } else if args.stubs_only {
            metadata.implementation_status == ActionImplementationStatus::Stub
        } else {
            true
        };
        assert(keep == pred(k));
        let ghost before = r@;
        if keep {
            r.push(metadata);
        }
        proof {
            let f = all@.take(i + 1).filter(pred);
            assert(forall|j: int| 0 <= j < before.len() ==> f[j] == all@.take(i as int).filter(pred)[j]);
            assert(forall|j: int| 0 <= j < before.len() ==> r@[j] == before[j]);
        }
        i = i + 1;
    }
    assert(all@.take(all@.len() as int) =~= all@);
    r
}

pub open spec fn not_in_catalog_message(name: Seq<char>) -> Seq<char> {
    name + " is not in the public warpctrl action catalog"@
}

pub open spec fn catalog_hint() -> Seq<char> {
    "Use `warpctrl action list` to inspect allowlisted actions."@
}

/// The catalog entry of the action with this wire name.
pub fn metadata_for_action_name(action: &str) -> (r: Result<ActionMetadata, ControlError>)
    ensures
        match r {
            Ok(m) => is_request_allowlisted(m.kind) && action_name(m.kind) == action@ && m.describes(m.kind),
            Err(e) => {
                &&& forall|k: ActionKind| is_request_allowlisted(k) ==> action_name(k) != action@
                &&& e.code == ErrorCode::NotAllowlisted
                &&& e.message@ == not_in_catalog_message(action@)
                &&& e.details matches Some(d) && d@ == catalog_hint()
            },
        },
{
    let all = ActionKind::all();
    let mut i: usize = 0;
    while i < all.len()
        invariant
            all@ == all_actions(),
            i <= all@.len(),
            forall|j: int| 0 <= j < i ==> action_name(#[trigger] all@[j]) != action@,
        decreases all@.len() - i,
    {
        let k = all[i];
        if str_eq(k.as_str(), action) {
            proof {
                crate::protocol::lemma_catalog_is_allowlisted(i as int);
            }
            return Ok(k.metadata());
        }
        i = i + 1;
    }
    proof {
        assert forall|k: ActionKind| is_request_allowlisted(k) implies action_name(k) != action@ by {
            lemma_all_actions_complete(k);
            let j = choose|j: int| 0 <= j < all_actions().len() && all_actions()[j] == k;
            assert(all@[j] == k);
        }
    }
    Err(ControlError::with_details(
        ErrorCode::NotAllowlisted,
        concat2(action, " is not in the public warpctrl action catalog"),
        owned("Use `warpctrl action list` to inspect allowlisted actions."),
    ))
}

/// What a catalog command prints: a JSON document, JSON lines, or a table.
#[derive(Clone, PartialEq, Eq, Debug)]
pub enum CatalogOutput {
    JsonDocument(Vec<ActionMetadata>),
    JsonLines(Vec<ActionMetadata>),
    Table(Vec<CatalogActionSummary>),
    SingleJsonDocument(ActionMetadata),
    SingleJsonLine(ActionMetadata),
}

/// `out` is the listing of the entries `args` keeps in `output_format`.
pub open spec fn listing_output(args: CatalogFilterArgs, output_format: OutputFormat, out: CatalogOutput) -> bool {
    match out {
        CatalogOutput::JsonDocument(v) => output_format == OutputFormat::Json
            && v@.len() == catalog_listing(args).len()
            && forall|i: int| 0 <= i < v@.len() ==> (#[trigger] v@[i]).describes(catalog_listing(args)[i]),
        CatalogOutput::JsonLines(v) => output_format == OutputFormat::Ndjson
            && v@.len() == catalog_listing(args).len()
            && forall|i: int| 0 <= i < v@.len() ==> (#[trigger] v@[i]).describes(catalog_listing(args)[i]),
        CatalogOutput::Table(rows) => (output_format == OutputFormat::Pretty || output_format == OutputFormat::Text)
            && rows@.len() == catalog_listing(args).len()
            && forall|i: int| 0 <= i < rows@.len() ==> {
                let k = catalog_listing(args)[i];
                &&& (#[trigger] rows@[i]).name@ == action_name(k)
                &&& rows@[i].implementation_status == status_of(k)
                &&& rows@[i].requires_authenticated_user == crate::protocol::requires_user_of(k)
                &&& rows@[i].target_scope == crate::protocol::scope_of(k)
                &&& rows@[i].permission_category == crate::protocol::permission_of(k)
            },
        _ => false,
    }
}

/// A listing in the requested format: a JSON array, one JSON line per entry,
/// or one table row per entry.
pub fn render_catalog_list(args: CatalogFilterArgs, output_format: OutputFormat) -> (out: CatalogOutput)
    ensures
        listing_output(args, output_format, out),
{
    let metadata = catalog_list(args);
    match output_format {
        OutputFormat::Json => CatalogOutput::JsonDocument(metadata),
        OutputFormat::Ndjson => CatalogOutput::JsonLines(metadata),
        OutputFormat::Pretty | OutputFormat::Text => {
            let ghost listing = catalog_listing(args);
            let mut rest = metadata;
            let mut rows: Vec<CatalogActionSummary> = Vec::new();
            let ghost all = rest@;
            let mut i: usize = 0;
            let n = rest.len();
            while i < n
                invariant
                    n == all.len(),
                    all.len() == listing.len(),
                    listing == catalog_listing(args),
                    forall|j: int| 0 <= j < all.len() ==> (#[trigger] all[j]).describes(listing[j]),
                    i <= n,
                    rest@ == all.skip(i as int),
                    rows@.len() == i,
                    forall|j: int| 0 <= j < i ==> {
                        let k = listing[j];
                        &&& (#[trigger] rows@[j]).name@ == action_name(k)
                        &&& rows@[j].implementation_status == status_of(k)
                        &&& rows@[j].requires_authenticated_user == crate::protocol::requires_user_of(k)
                        &&& rows@[j].target_scope == crate::protocol::scope_of(k)
                        &&& rows@[j].permission_category == crate::protocol::permission_of(k)
                    },
                decreases n - i,
            {
                let m = rest.remove(0);
                proof {
                    assert(m == all[i as int]);
                    assert(all[i as int].describes(listing[i as int]));
                    assert(all.skip(i as int).drop_first() =~= all.skip(i + 1));
                }
                rows.push(CatalogActionSummary::from_metadata(m));
                i = i + 1;
            }
            CatalogOutput::Table(rows)
        },
    }
}

/// One catalog entry in the requested format: a JSON line for `ndjson`, a
/// JSON document otherwise.
pub fn render_catalog_metadata(metadata: ActionMetadata, output_format: OutputFormat) -> (out: CatalogOutput)
    ensures
        output_format == OutputFormat::Ndjson ==> out == CatalogOutput::SingleJsonLine(metadata),
        output_format != OutputFormat::Ndjson ==> out == CatalogOutput::SingleJsonDocument(metadata),
{
    match output_format {
        OutputFormat::Ndjson => CatalogOutput::SingleJsonLine(metadata),
        _ => CatalogOutput::SingleJsonDocument(metadata),
    }
}

/// `warpctrl action list|inspect`.
pub fn run_action_catalog_command(command: ActionCatalogCommand<String>, output_format: OutputFormat) -> (r: Result<CatalogOutput, ControlError>)
    ensures
        match command {
            ActionCatalogCommand::List(args) => r matches Ok(out) && listing_output(args, output_format, out),
            ActionCatalogCommand::Inspect { action } => match r {
                Ok(out) => exists|k: ActionKind| is_request_allowlisted(k) && action_name(k) == action@ && (match out {
                    CatalogOutput::SingleJsonDocument(m) => output_format != OutputFormat::Ndjson && m.describes(k),
                    CatalogOutput::SingleJsonLine(m) => output_format == OutputFormat::Ndjson && m.describes(k),
                    _ => false,
                }),
                Err(e) => (forall|k: ActionKind| is_request_allowlisted(k) ==> action_name(k) != action@) && e.code == ErrorCode::NotAllowlisted
                    && e.message@ == not_in_catalog_message(action@),
            },
        },
{
    match command {
        ActionCatalogCommand::List(args) => Ok(render_catalog_list(args, output_format)),
        ActionCatalogCommand::Inspect { action } => {
            let metadata = metadata_for_action_name(action.as_str())?;
            Ok(render_catalog_metadata(metadata, output_format))
        },
    }
}

/// `warpctrl capability list|inspect`: the same catalog as `action`.
pub fn run_capability_command(command: CapabilityCommand<String>, output_format: OutputFormat) -> (r: Result<CatalogOutput, ControlError>)
    ensures
        match command {
            CapabilityCommand::List(args) => r matches Ok(out) && listing_output(args, output_format, out),
            CapabilityCommand::Inspect { action } => match r {
                Ok(out) => exists|k: ActionKind| is_request_allowlisted(k) && action_name(k) == action@ && (match out {
                    CatalogOutput::SingleJsonDocument(m) => output_format != OutputFormat::Ndjson && m.describes(k),
                    CatalogOutput::SingleJsonLine(m) => output_format == OutputFormat::Ndjson && m.describes(k),
                    _ => false,
                }),
                Err(e) => (forall|k: ActionKind| is_request_allowlisted(k) ==> action_name(k) != action@) && e.code == ErrorCode::NotAllowlisted
                    && e.message@ == not_in_catalog_message(action@),
            },
        },
{
    match command {
        CapabilityCommand::List(args) => Ok(render_catalog_list(args, output_format)),
        CapabilityCommand::Inspect { action } => {
            let metadata = metadata_for_action_name(action.as_str())?;
            Ok(render_catalog_metadata(metadata, output_format))
        },
    }
}

/// Inspecting an action by its own wire name gives its catalog entry.
pub proof fn lemma_inspect_by_name_round_trip(k: ActionKind, m: ActionMetadata)
    requires
        action_name(m.kind) == action_name(k),
        m.describes(m.kind),
    ensures
        m.describes(k),
{
    if m.kind != k {
        crate::protocol::lemma_action_names_unique(m.kind, k);
    }
}

} // verus!

verus! {

/// A request to one Warp instance: the action, and how to pick the instance.
#[derive(Clone, PartialEq, Eq, Debug)]
pub struct ControlRequest {
    pub target: TargetArgs<String>,
    pub action: ActionKind,
}

/// What an `instance` command does: list the discoverable instances, or send
/// a request to one.
#[derive(Clone, PartialEq, Eq, Debug)]
pub enum InstanceCommandPlan {
    ListInstances,
    Send(ControlRequest),
}

/// `warpctrl instance list|inspect`.
pub fn run_instance_command(command: InstanceCommand<String>) -> (p: InstanceCommandPlan)
    ensures
        match command {
            InstanceCommand::List => p == InstanceCommandPlan::ListInstances,
            InstanceCommand::Inspect(args) => p == InstanceCommandPlan::Send(ControlRequest { target: args, action: ActionKind::InstanceInspect }),
        },
{
    match command {
        InstanceCommand::List => InstanceCommandPlan::ListInstances,
        InstanceCommand::Inspect(args) => InstanceCommandPlan::Send(ControlRequest { target: args, action: ActionKind::InstanceInspect }),
    }
}

/// `warpctrl app ping|version|active|focus`: the request each sends.
pub fn run_app_command(command: AppCommand<String>) -> (r: ControlRequest)
    ensures
        match command {
            AppCommand::Ping(args) => r == ControlRequest { target: args, action: ActionKind::AppPing },
            AppCommand::Version(args) => r == ControlRequest { target: args, action: ActionKind::AppVersion },
            AppCommand::Active(args) => r == ControlRequest { target: args, action: ActionKind::AppActive },
            AppCommand::Focus(args) => r == ControlRequest { target: args, action: ActionKind::AppFocus },
        },
{
    match command {
        AppCommand::Ping(args) => ControlRequest { target: args, action: ActionKind::AppPing },
        AppCommand::Version(args) => ControlRequest { target: args, action: ActionKind::AppVersion },
        AppCommand::Active(args) => ControlRequest { target: args, action: ActionKind::AppActive },
        AppCommand::Focus(args) => ControlRequest { target: args, action: ActionKind::AppFocus },
    }
}

/// `warpctrl tab create`.
pub fn run_tab_command(command: TabCommand<String>) -> (r: ControlRequest)
    ensures
        match command {
            TabCommand::Create(args) => r == ControlRequest { target: args, action: ActionKind::TabCreate },
        },
{
    match command {
        TabCommand::Create(args) => ControlRequest { target: args, action: ActionKind::TabCreate },
    }
}

} // verus!

verus! {

/// Where an instance accepts local-control connections.
#[derive(Clone, PartialEq, Eq, Debug)]
pub struct ControlEndpoint {
    pub host: String,
    pub port: u16,
}

/// Display-oriented projection of a discoverable Warp instance.
#[derive(Clone, PartialEq, Eq, Debug)]
pub struct InstanceSummary {
    pub instance_id: String,
    pub pid: u32,
    pub channel: String,
    pub app_id: String,
    pub app_version: Option<String>,
    pub started_at: String,
    pub endpoint: Option<ControlEndpoint>,
    pub outside_warp_control_enabled: bool,
    pub actions: Vec<ActionMetadata>,
}

/// `host:port`, or a marker for an instance that refuses outside control.
pub open spec fn endpoint_text(endpoint: Option<ControlEndpoint>) -> Seq<char> {
    match endpoint {
        Some(e) => e.host@ + ":"@ + decimal_text(e.port as nat),
        None => "outside_warp_disabled"@,
    }
}

/// The line `instance list` prints for an instance in text form: id, pid,
/// channel and endpoint, separated by tabs.
pub open spec fn instance_line_text(summary: InstanceSummary) -> Seq<char> {
    summary.instance_id@ + "\tpid="@ + decimal_text(summary.pid as nat) + "\t"@ + summary.channel@ + "\t"@
        + endpoint_text(summary.endpoint)
}

/// The text line for one instance.
pub fn instance_line(summary: &InstanceSummary) -> (line: String)
    ensures
        line@ == instance_line_text(*summary),
{
    let mut line = owned(summary.instance_id.as_str());
    line.append("\tpid=");
    let pid = decimal_string(summary.pid as u64);
    line.append(pid.as_str());
    line.append("\t");
    line.append(summary.channel.as_str());
    line.append("\t");
    match &summary.endpoint {
        Some(e) => {
            line.append(e.host.as_str());
            line.append(":");
            let port = decimal_string(e.port as u64);
            line.append(port.as_str());
        },
        None => {
            line.append("outside_warp_disabled");
        },
    }
    line
}

/// What `instance list` prints: the summaries as one JSON document, as JSON
/// lines, or as text lines.
#[derive(Clone, PartialEq, Eq, Debug)]
pub enum InstanceListOutput {
    JsonDocument(Vec<InstanceSummary>),
    JsonLines(Vec<InstanceSummary>),
    Lines(Vec<String>),
}

/// The listing of the discovered instances in the requested format.
pub fn render_instance_list(summaries: Vec<InstanceSummary>, output_format: OutputFormat) -> (out: InstanceListOutput)
    ensures
        match output_format {
            OutputFormat::Json => out == InstanceListOutput::JsonDocument(summaries),
            OutputFormat::Ndjson => out == InstanceListOutput::JsonLines(summaries),
            _ => out matches InstanceListOutput::Lines(lines) && lines@.len() == summaries@.len()
                && forall|i: int| 0 <= i < lines@.len() ==> (#[trigger] lines@[i])@ == instance_line_text(summaries@[i]),
        },
{
    match output_format {
        OutputFormat::Json => InstanceListOutput::JsonDocument(summaries),
        OutputFormat::Ndjson => InstanceListOutput::JsonLines(summaries),
        _ => {
            let mut lines: Vec<String> = Vec::new();
            let mut i: usize = 0;
            while i < summaries.len()
                invariant
                    i <= summaries@.len(),
                    lines@.len() == i,
                    forall|j: int| 0 <= j < i ==> (#[trigger] lines@[j])@ == instance_line_text(summaries@[j]),
                decreases summaries@.len() - i,
            {
                let line = instance_line(&summaries[i]);
                lines.push(line);
                i = i + 1;
            }
            InstanceListOutput::Lines(lines)
        },
    }
}

} // verus!

verus! {

/// How a table row names an implementation status.
pub open spec fn status_label(s: ActionImplementationStatus) -> Seq<char> {
    match s {
        ActionImplementationStatus::Implemented => "Implemented"@,
        ActionImplementationStatus::Stub => "Stub"@,
    }
}

/// How a table row names a target scope.
pub open spec fn scope_label(s: TargetScope) -> Seq<char> {
    match s {
        TargetScope::Instance => "Instance"@,
        TargetScope::Window => "Window"@,
        TargetScope::Pane => "Pane"@,
        TargetScope::Drive => "Drive"@,
    }
}

/// How a table row names a permission category.
pub open spec fn permission_label(p: PermissionCategory) -> Seq<char> {
    match p {
        PermissionCategory::ReadMetadata => "ReadMetadata"@,
        PermissionCategory::ReadUnderlyingData => "ReadUnderlyingData"@,
        PermissionCategory::MutateAppState => "MutateAppState"@,
        PermissionCategory::MutateMetadataConfiguration => "MutateMetadataConfiguration"@,
        PermissionCategory::MutateUnderlyingData => "MutateUnderlyingData"@,
    }
}

pub open spec fn bool_label(b: bool) -> Seq<char> {
    if b {
        "true"@
    } else {
        "false"@
    }
}

/// The line a catalog table prints for an entry: its name, then status,
/// scope, permission and whether a signed-in user is needed, tab-separated.
pub open spec fn catalog_row_text(row: CatalogActionSummary) -> Seq<char> {
    row.name@ + "\tstatus="@ + status_label(row.implementation_status) + "\tscope="@ + scope_label(row.target_scope)
        + "\tpermission="@ + permission_label(row.permission_category) + "\tauthenticated_user="@
        + bool_label(row.requires_authenticated_user)
}

fn status_label_str(s: ActionImplementationStatus) -> (r: &'static str)
    ensures
        r@ == status_label(s),
{
    match s {
        ActionImplementationStatus::Implemented => "Implemented",
        ActionImplementationStatus::Stub => "Stub",
    }
}

fn scope_label_str(s: TargetScope) -> (r: &'static str)
    ensures
        r@ == scope_label(s),
{
    match s {
        TargetScope::Instance => "Instance",
        TargetScope::Window => "Window",
        TargetScope::Pane => "Pane",
        TargetScope::Drive => "Drive",
    }
}

fn permission_label_str(p: PermissionCategory) -> (r: &'static str)
    ensures
        r@ == permission_label(p),
{
    match p {
        PermissionCategory::ReadMetadata => "ReadMetadata",
        PermissionCategory::ReadUnderlyingData => "ReadUnderlyingData",
        PermissionCategory::MutateAppState => "MutateAppState",
        PermissionCategory::MutateMetadataConfiguration => "MutateMetadataConfiguration",
        PermissionCategory::MutateUnderlyingData => "MutateUnderlyingData",
    }
}

/// The table line for one catalog entry.
pub fn catalog_row_line(row: &CatalogActionSummary) -> (line: String)
    ensures
        line@ == catalog_row_text(*row),
{
    let mut line = owned(row.name.as_str());
    line.append("\tstatus=");
    line.append(status_label_str(row.implementation_status));
    line.append("\tscope=");
    line.append(scope_label_str(row.target_scope));
    line.append("\tpermission=");
    line.append(permission_label_str(row.permission_category));
    line.append("\tauthenticated_user=");
    line.append(if row.requires_authenticated_user { "true" } else { "false" });
    line
}

} // verus!
