//! Docker images: versions, the registry and image menus, and the `docker`
//! commands that build, tag and push an image to ECR.

use crate::command::{
    inherit_plan, make_capture_plan, make_inherit_plan, template, CommandPlan, ErrorTemplate,
    InputView, PlanView,
};
use crate::config::EcrRegistry;
use crate::error::{error_value, StoolError, StoolErrorType, StoolErrorView, StoolResult};
use crate::interactive::{number_items, numbered, numbered_all, push_numbered, MENU_MANUAL_INPUT};
use crate::text::{
    decimal, join, join_spec, parse_u32, parse_u32_spec, split_char, split_spec, str_equal, trim,
    trim_spec, u64_to_decimal, views,
};
pub use crate::flows::build_only;
use vstd::prelude::*;
use vstd::string::*;

verus! {

/// The tag that always names the newest build.
pub const DEFAULT_TAG: &'static str = "latest";

/// Which part of the version to raise, or `Latest` for no version tag.
#[derive(Debug, Clone, Copy, PartialEq, Eq, Structural)]
pub enum VersionIncrement {
    Latest,
    Major,
    Middle,
    Minor,
}

/// A version `major.middle.minor`.
#[derive(Debug, Clone, Copy, PartialEq, Eq, Structural)]
pub struct Version {
    pub major: u32,
    pub middle: u32,
    pub minor: u32,
}

/// The version `s` denotes: exactly three `.`-separated parts, each a `u32`
/// as `u32::from_str` reads it.
pub open spec fn version_spec(s: Seq<char>) -> Option<Version> {
    let parts = split_spec(s, '.');
    if parts.len() == 3 && parse_u32_spec(parts[0]) is Some && parse_u32_spec(parts[1]) is Some
        && parse_u32_spec(parts[2]) is Some {
        Some(
            Version {
                major: parse_u32_spec(parts[0])->0,
                middle: parse_u32_spec(parts[1])->0,
                minor: parse_u32_spec(parts[2])->0,
            },
        )
    } else {
        None
    }
}

/// `a.b.c` for three numbers.
pub open spec fn dotted(a: nat, b: nat, c: nat) -> Seq<char> {
    decimal(a) + "."@ + decimal(b) + "."@ + decimal(c)
}

/// The tag for raising `v` by `inc`; `latest` for [`VersionIncrement::Latest`].
pub open spec fn increment_spec(v: Version, inc: VersionIncrement) -> Seq<char> {
    match inc {
        VersionIncrement::Latest => DEFAULT_TAG@,
        VersionIncrement::Major => dotted((v.major + 1) as nat, 0, 0),
        VersionIncrement::Middle => dotted(v.major as nat, (v.middle + 1) as nat, 0),
        VersionIncrement::Minor => dotted(v.major as nat, v.middle as nat, (v.minor + 1) as nat),
    }
}

/// Whether raising `v` by `inc` stays within `u32`; raising a part that is
/// already `u32::MAX` overflows, and such inputs are not accepted.
pub open spec fn increment_fits(v: Version, inc: VersionIncrement) -> bool {
    match inc {
        VersionIncrement::Latest => true,
        VersionIncrement::Major => v.major < u32::MAX,
        VersionIncrement::Middle => v.middle < u32::MAX,
        VersionIncrement::Minor => v.minor < u32::MAX,
    }
}

/// Builds [`dotted`].
fn dotted_string(a: u64, b: u64, c: u64) -> (res: String)
    ensures
        res@ == dotted(a as nat, b as nat, c as nat),
{
    let mut s = u64_to_decimal(a);
    s.append(".");
    let sb = u64_to_decimal(b);
    s.append(sb.as_str());
    s.append(".");
    let sc = u64_to_decimal(c);
    s.append(sc.as_str());
    s
}

impl Version {
    /// Parses a version string in the form `x.y.z`.
    pub fn parse(s: &str) -> (res: Option<Version>)
        ensures
            res == version_spec(s@),
    {
        let parts = split_char(s, '.');
        if parts.len() != 3 {
            return None;
        }
        let major = parse_u32(parts[0].as_str());
        let middle = parse_u32(parts[1].as_str());
        let minor = parse_u32(parts[2].as_str());
        assert(views(parts@)[0] == parts@[0]@);
        assert(views(parts@)[1] == parts@[1]@);
        assert(views(parts@)[2] == parts@[2]@);
        match (major, middle, minor) {
            (Some(a), Some(b), Some(c)) => Some(Version { major: a, middle: b, minor: c }),
            _ => None,
        }
    }

    /// The tag for raising this version by `inc`.
    pub fn increment(&self, inc: VersionIncrement) -> (res: String)
        requires
            increment_fits(*self, inc),
        ensures
            res@ == increment_spec(*self, inc),
    {
        match inc {
            VersionIncrement::Latest => String::from_str(DEFAULT_TAG),
            VersionIncrement::Major => dotted_string(self.major as u64 + 1, 0, 0),
            VersionIncrement::Middle => dotted_string(
                self.major as u64,
                self.middle as u64 + 1,
                0,
            ),
            VersionIncrement::Minor => dotted_string(
                self.major as u64,
                self.middle as u64,
                self.minor as u64 + 1,
            ),
        }
    }
}

// ---------------------------------------------------------------------------
// Menus
// ---------------------------------------------------------------------------
/// `<account>.dkr.ecr.<region>.amazonaws.com`.
pub open spec fn ecr_url_spec(account_id: Seq<char>, region: Seq<char>) -> Seq<char> {
    account_id + ".dkr.ecr."@ + region + ".amazonaws.com"@
}

/// Builds [`ecr_url_spec`].
pub fn ecr_url(account_id: &str, region: &str) -> (res: String)
    ensures
        res@ == ecr_url_spec(account_id@, region@),
{
    let mut s = String::from_str(account_id);
    s.append(".dkr.ecr.");
    s.append(region);
    s.append(".amazonaws.com");
    s
}

/// How a registry is listed in the Docker menus: `"<name> (<url>)"`.
pub open spec fn registry_label(r: EcrRegistry) -> Seq<char> {
    r.name@ + " ("@ + ecr_url_spec(r.account_id@, r.region@) + ")"@
}

/// The registry menu of the Docker commands.
pub open spec fn registry_menu_spec(regs: Seq<EcrRegistry>) -> Seq<Seq<char>> {
    numbered_all(Seq::new(regs.len(), |i: int| registry_label(regs[i])))
}

/// Builds [`registry_label`].
pub fn registry_label_of(r: &EcrRegistry) -> (res: String)
    ensures
        res@ == registry_label(*r),
{
    let mut s = r.name.clone();
    s.append(" (");
    let u = ecr_url(r.account_id.as_str(), r.region.as_str());
    s.append(u.as_str());
    s.append(")");
    s
}

/// The entries of the registry menu of the Docker commands.
pub fn registry_menu(regs: &[EcrRegistry]) -> (res: Vec<String>)
    ensures
        views(res@) == registry_menu_spec(regs@),
{
    let mut labels: Vec<String> = Vec::new();
    let mut i: usize = 0;
    while i < regs.len()
        invariant
            i <= regs.len(),
            labels@.len() == i,
            forall|k: int| 0 <= k < i ==> #[trigger] labels@[k]@ == registry_label(regs@[k]),
        decreases regs.len() - i,
    {
        labels.push(registry_label_of(&regs[i]));
        i = i + 1;
    }
    assert(views(labels@) =~= Seq::new(regs@.len(), |k: int| registry_label(regs@[k])));
    number_items(&labels)
}

/// The error when no registry is configured.
pub fn no_registries() -> (e: StoolError)
    ensures
        e@ == error_value(
            StoolErrorType::ConfigLoadFailed,
            Some("No ECR registries configured"@),
            None,
        ),
{
    StoolError::new(StoolErrorType::ConfigLoadFailed).with_message("No ECR registries configured")
}

/// Prompt of the registry menu.
pub const REGISTRY_PROMPT: &'static str = "Select ECR registry:";

/// Prompt of the image menu.
pub const IMAGE_PROMPT: &'static str = "Select image:";

/// Prompt for a typed image name.
pub const IMAGE_NAME_PROMPT: &'static str = "Image name:";

/// The image menu: the configured images, numbered, then manual input.
pub open spec fn image_menu_spec(images: Seq<Seq<char>>) -> Seq<Seq<char>> {
    numbered_all(images).push(numbered(images.len(), MENU_MANUAL_INPUT@))
}

/// Builds [`image_menu_spec`]. (With no configured image no menu is shown:
/// the name is asked for directly.)
pub fn image_menu(images: &Vec<String>) -> (res: Vec<String>)
    ensures
        views(res@) == image_menu_spec(views(images@)),
{
    let mut items = number_items(images);
    push_numbered(&mut items, MENU_MANUAL_INPUT);
    items
}

/// The configured image picked in the image menu, or `None` when the name
/// must be typed: entries past the images mean manual input.
pub fn image_choice(count: usize, selection: usize) -> (res: Option<usize>)
    ensures
        res == (if selection < count {
            Some(selection)
        } else {
            None
        }),
{
    if selection < count {
        Some(selection)
    } else {
        None
    }
}

// ---------------------------------------------------------------------------
// docker commands
// ---------------------------------------------------------------------------
/// `docker <args>`: failures of either kind are command-execution errors
/// that quote the command line.
pub open spec fn docker_plan_spec(args: Seq<Seq<char>>) -> PlanView {
    let line = join_spec(args, " "@);
    inherit_plan(
        "docker"@,
        args,
        template(
            StoolErrorType::CommandExecutionFailed,
            Some("Failed to execute docker "@ + line),
        ),
        template(
            StoolErrorType::CommandExecutionFailed,
            Some("Docker command failed: docker "@ + line),
        ),
    )
}

/// The plan of `execute_docker`.
pub fn docker_plan(args: Vec<String>) -> (p: CommandPlan)
    ensures
        p@ == docker_plan_spec(views(args@)),
{
    let line = join(&args, " ");
    let mut spawn_msg = String::from_str("Failed to execute docker ");
    spawn_msg.append(line.as_str());
    let mut exit_msg = String::from_str("Docker command failed: docker ");
    exit_msg.append(line.as_str());
    make_inherit_plan(
        "docker",
        args,
        ErrorTemplate::with_text(StoolErrorType::CommandExecutionFailed, spawn_msg.as_str()),
        ErrorTemplate::with_text(StoolErrorType::CommandExecutionFailed, exit_msg.as_str()),
    )
}

/// `<image>:<tag>`.
pub open spec fn tagged(image: Seq<char>, tag: Seq<char>) -> Seq<char> {
    image + ":"@ + tag
}

/// The arguments of `docker build` for `image`: ARM64 platform, no
/// provenance or SBOM attestations, tagged `<image>:latest`, context `.`.
pub open spec fn build_args_spec(image: Seq<char>) -> Seq<Seq<char>> {
    seq![
        "build"@,
        "--platform"@,
        "linux/arm64"@,
        "--provenance=false"@,
        "--sbom=false"@,
        "-t"@,
        tagged(image, DEFAULT_TAG@),
        "."@,
    ]
}

/// Builds `<image>:<tag>`.
pub fn tagged_name(image: &str, tag: &str) -> (res: String)
    ensures
        res@ == tagged(image@, tag@),
{
    let mut s = String::from_str(image);
    s.append(":");
    s.append(tag);
    s
}

/// The notice printed before building, the `docker build` plan, and the
/// notice printed after a successful build.
pub fn build_image_plan(image: &str) -> (res: (String, CommandPlan, String))
    ensures
        res.0@ == "Building Docker image: "@ + tagged(image@, DEFAULT_TAG@),
        res.1@ == docker_plan_spec(build_args_spec(image@)),
        res.2@ == "Build completed successfully"@,
{
    let t = tagged_name(image, DEFAULT_TAG);
    let mut notice = String::from_str("Building Docker image: ");
    notice.append(t.as_str());
    let args = vec![
        String::from_str("build"),
        String::from_str("--platform"),
        String::from_str("linux/arm64"),
        String::from_str("--provenance=false"),
        String::from_str("--sbom=false"),
        String::from_str("-t"),
        t,
        String::from_str("."),
    ];
    assert(views(args@) =~= build_args_spec(image@));
    (notice, docker_plan(args), String::from_str("Build completed successfully"))
}

// ---------------------------------------------------------------------------
// Versions in ECR
// ---------------------------------------------------------------------------
/// The JMESPath query that picks the first tag of the newest image.
pub const LATEST_TAG_QUERY: &'static str = "sort_by(imageDetails,& imagePushedAt)[-1].imageTags[0]";

/// The arguments of `aws ecr describe-images` that ask for the newest tag.
pub open spec fn describe_images_args(image: Seq<char>, region: Seq<char>) -> Seq<Seq<char>> {
    seq![
        "ecr"@,
        "describe-images"@,
        "--repository-name"@,
        image,
        "--region"@,
        region,
        "--query"@,
        LATEST_TAG_QUERY@,
        "--output"@,
        "text"@,
    ]
}

/// The plan that asks ECR for the newest tag of `image`. Its output is
/// collected; a failure status is no error (see [`latest_version_spec`]).
pub open spec fn describe_images_spec(image: Seq<char>, region: Seq<char>) -> PlanView {
    PlanView {
        input: InputView::Capture,
        ..inherit_plan(
            "aws"@,
            describe_images_args(image, region),
            template(
                StoolErrorType::CommandExecutionFailed,
                Some("Failed to execute aws ecr describe-images"@),
            ),
            template(StoolErrorType::CommandExecutionFailed, None),
        )
    }
}

/// Builds [`describe_images_spec`].
pub fn describe_images_plan(image: &str, region: &str) -> (p: CommandPlan)
    ensures
        p@ == describe_images_spec(image@, region@),
{
    let args = vec![
        String::from_str("ecr"),
        String::from_str("describe-images"),
        String::from_str("--repository-name"),
        String::from_str(image),
        String::from_str("--region"),
        String::from_str(region),
        String::from_str("--query"),
        String::from_str(LATEST_TAG_QUERY),
        String::from_str("--output"),
        String::from_str("text"),
    ];
    assert(views(args@) =~= describe_images_args(image@, region@));
    make_capture_plan(
        "aws",
        args,
        ErrorTemplate::with_text(
            StoolErrorType::CommandExecutionFailed,
            "Failed to execute aws ecr describe-images",
        ),
        ErrorTemplate::plain(StoolErrorType::CommandExecutionFailed),
    )
}

/// The current version tag that ECR reported: nothing when the command
/// failed (no repository, or an empty one) or printed nothing or `None`;
/// otherwise its trimmed output.
pub open spec fn latest_version_spec(success: bool, stdout: Seq<char>) -> Option<Seq<char>> {
    let t = trim_spec(stdout);
    if !success || t.len() == 0 || t == "None"@ {
        None
    } else {
        Some(t)
    }
}

/// Reads the current version tag from the output of [`describe_images_plan`].
pub fn latest_version_from_output(success: bool, stdout: &str) -> (res: Option<String>)
    ensures
        crate::text::opt_view(res) == latest_version_spec(success, stdout@),
{
    if !success {
        return None;
    }
    let t = trim(stdout);
    if t.as_str().unicode_len() == 0 || str_equal(t.as_str(), "None") {
        None
    } else {
        Some(t)
    }
}

/// The version the increments start from: the parsed current tag, or
/// `0.1.0` when the current tag is not of the form `x.y.z`; nothing when
/// ECR has no tag.
pub open spec fn version_base(current: Option<Seq<char>>) -> Option<Version> {
    match current {
        Some(c) => Some(
            match version_spec(c) {
                Some(v) => v,
                None => Version { major: 0, middle: 1, minor: 0 },
            },
        ),
        None => None,
    }
}

/// Whether every increment offered for `current` stays within `u32`.
pub open spec fn increments_fit(current: Option<Seq<char>>) -> bool {
    match version_base(current) {
        Some(v) => v.major < u32::MAX && v.middle < u32::MAX && v.minor < u32::MAX,
        None => true,
    }
}

/// The entries of the version menu: raise the major, middle or minor part.
pub open spec fn version_menu_spec(current: Option<Seq<char>>) -> Seq<Seq<char>> {
    match version_base(current) {
        Some(v) => seq![
            "1. major ("@ + increment_spec(v, VersionIncrement::Major) + ")"@,
            "2. middle ("@ + increment_spec(v, VersionIncrement::Middle) + ")"@,
            "3. minor ("@ + increment_spec(v, VersionIncrement::Minor) + ")"@,
        ],
        None => seq!["1. major (1.0.0)"@, "2. middle (0.1.0)"@, "3. minor (0.0.1)"@],
    }
}

/// The entry of the version menu that is preselected: minor.
pub const VERSION_DEFAULT: usize = 2;

/// The version tag picked in the version menu, or an invalid-input error.
pub open spec fn new_version_spec(current: Option<Seq<char>>, selection: nat) -> Result<
    Seq<char>,
    StoolErrorView,
> {
    match version_base(current) {
        Some(v) => if selection == 0 {
            Ok(increment_spec(v, VersionIncrement::Major))
        } else if selection == 1 {
            Ok(increment_spec(v, VersionIncrement::Middle))
        } else if selection == 2 {
            Ok(increment_spec(v, VersionIncrement::Minor))
        } else {
            Err(error_value(StoolErrorType::InvalidInput, None, None))
        },
        None => if selection == 0 {
            Ok("1.0.0"@)
        } else if selection == 1 {
            Ok("0.1.0"@)
        } else if selection == 2 {
            Ok("0.0.1"@)
        } else {
            Err(error_value(StoolErrorType::InvalidInput, None, None))
        },
    }
}

/// The view of an optional string slice.
pub open spec fn opt_str(o: Option<&str>) -> Option<Seq<char>> {
    crate::command::opt_str_view(o)
}

/// Computes [`version_base`].
pub fn base_version(current: Option<&str>) -> (res: Option<Version>)
    ensures
        res == version_base(opt_str(current)),
{
    match current {
        Some(c) => match Version::parse(c) {
            Some(v) => Some(v),
            None => Some(Version { major: 0, middle: 1, minor: 0 }),
        },
        None => None,
    }
}

/// Decides [`increments_fit`]: whether the version menu can be offered
/// without overflowing a part of the version.
pub fn version_fits(current: Option<&str>) -> (res: bool)
    ensures
        res == increments_fit(opt_str(current)),
{
    match base_version(current) {
        Some(v) => v.major < u32::MAX && v.middle < u32::MAX && v.minor < u32::MAX,
        None => true,
    }
}

/// `prefix + text + ")"`.
fn parenthesized(prefix: &str, text: String) -> (res: String)
    ensures
        res@ == prefix@ + text@ + ")"@,
{
    let mut s = String::from_str(prefix);
    s.append(text.as_str());
    s.append(")");
    s
}

/// Prompt of the version menu.
pub const VERSION_PROMPT: &'static str = "Select version type:";

/// The entries of the version menu for the current tag.
pub fn version_menu(current: Option<&str>) -> (res: Vec<String>)
    requires
        increments_fit(opt_str(current)),
    ensures
        views(res@) == version_menu_spec(opt_str(current)),
{
    match base_version(current) {
        Some(v) => {
            let res = vec![
                parenthesized("1. major (", v.increment(VersionIncrement::Major)),
                parenthesized("2. middle (", v.increment(VersionIncrement::Middle)),
                parenthesized("3. minor (", v.increment(VersionIncrement::Minor)),
            ];
            assert(views(res@) =~= version_menu_spec(opt_str(current)));
            res
        },
        None => {
            let res = vec![
                String::from_str("1. major (1.0.0)"),
                String::from_str("2. middle (0.1.0)"),
                String::from_str("3. minor (0.0.1)"),
            ];
            assert(views(res@) =~= version_menu_spec(opt_str(current)));
            res
        },
    }
}

/// The version tag picked as entry `selection` of the version menu.
pub fn new_version(current: Option<&str>, selection: usize) -> (res: StoolResult<String>)
    requires
        increments_fit(opt_str(current)),
    ensures
        match (res, new_version_spec(opt_str(current), selection as nat)) {
            (Ok(s), Ok(t)) => s@ == t,
            (Err(e), Err(f)) => e@ == f,
            _ => false,
        },
{
    match base_version(current) {
        Some(v) => match selection {
            0 => Ok(v.increment(VersionIncrement::Major)),
            1 => Ok(v.increment(VersionIncrement::Middle)),
            2 => Ok(v.increment(VersionIncrement::Minor)),
            _ => Err(StoolError::new(StoolErrorType::InvalidInput)),
        },
        None => match selection {
            0 => Ok(String::from_str("1.0.0")),
            1 => Ok(String::from_str("0.1.0")),
            2 => Ok(String::from_str("0.0.1")),
            _ => Err(StoolError::new(StoolErrorType::InvalidInput)),
        },
    }
}

// ---------------------------------------------------------------------------
// Tag and push
// ---------------------------------------------------------------------------
/// `<url>/<image>:<tag>`.
pub open spec fn remote_ref(url: Seq<char>, image: Seq<char>, tag: Seq<char>) -> Seq<char> {
    url + "/"@ + tagged(image, tag)
}

/// A line to print and the command to run after it.
pub struct PushStep {
    pub notice: String,
    pub plan: CommandPlan,
}

/// The mathematical value of a [`PushStep`].
pub struct PushStepView {
    pub notice: Seq<char>,
    pub plan: PlanView,
}

impl View for PushStep {
    type V = PushStepView;

    open spec fn view(&self) -> PushStepView {
        PushStepView { notice: self.notice@, plan: self.plan@ }
    }
}

/// Tagging `<image>:latest` as `<url>/<image>:<tag>`.
pub open spec fn tag_step(url: Seq<char>, image: Seq<char>, tag: Seq<char>) -> PushStepView {
    PushStepView {
        notice: "Tagging image: "@ + tagged(image, tag),
        plan: docker_plan_spec(
            seq!["tag"@, tagged(image, DEFAULT_TAG@), remote_ref(url, image, tag)],
        ),
    }
}

/// Pushing `<url>/<image>:<tag>`.
pub open spec fn push_step(url: Seq<char>, image: Seq<char>, tag: Seq<char>) -> PushStepView {
    PushStepView {
        notice: "Pushing "@ + remote_ref(url, image, tag),
        plan: docker_plan_spec(seq!["push"@, remote_ref(url, image, tag)]),
    }
}

/// The steps after the build: tag `latest`, tag the version, push
/// `latest`, push the version. Every push sends both tags.
pub open spec fn push_steps_spec(url: Seq<char>, image: Seq<char>, version: Seq<char>) -> Seq<
    PushStepView,
> {
    seq![
        tag_step(url, image, DEFAULT_TAG@),
        tag_step(url, image, version),
        push_step(url, image, DEFAULT_TAG@),
        push_step(url, image, version),
    ]
}

/// Builds `<url>/<image>:<tag>`.
fn remote_ref_of(url: &str, image: &str, tag: &str) -> (res: String)
    ensures
        res@ == remote_ref(url@, image@, tag@),
{
    let mut s = String::from_str(url);
    s.append("/");
    let t = tagged_name(image, tag);
    s.append(t.as_str());
    s
}

/// Builds [`tag_step`].
fn make_tag_step(url: &str, image: &str, tag: &str) -> (res: PushStep)
    ensures
        res@ == tag_step(url@, image@, tag@),
{
    let mut notice = String::from_str("Tagging image: ");
    let t = tagged_name(image, tag);
    notice.append(t.as_str());
    let args = vec![
        String::from_str("tag"),
        tagged_name(image, DEFAULT_TAG),
        remote_ref_of(url, image, tag),
    ];
    assert(views(args@) =~= seq!["tag"@, tagged(image@, DEFAULT_TAG@), remote_ref(url@, image@, tag@)]);
    PushStep { notice, plan: docker_plan(args) }
}

/// Builds [`push_step`].
fn make_push_step(url: &str, image: &str, tag: &str) -> (res: PushStep)
    ensures
        res@ == push_step(url@, image@, tag@),
{
    let r = remote_ref_of(url, image, tag);
    let mut notice = String::from_str("Pushing ");
    notice.append(r.as_str());
    let args = vec![String::from_str("push"), r];
    assert(views(args@) =~= seq!["push"@, remote_ref(url@, image@, tag@)]);
    PushStep { notice, plan: docker_plan(args) }
}

/// The views of a sequence of steps.
pub open spec fn step_views(v: Seq<PushStep>) -> Seq<PushStepView> {
    v.map_values(|s: PushStep| s@)
}

/// The tag and push steps for `image` in the registry at `url`.
pub fn push_steps(url: &str, image: &str, version: &str) -> (res: Vec<PushStep>)
    ensures
        step_views(res@) == push_steps_spec(url@, image@, version@),
{
    let res = vec![
        make_tag_step(url, image, DEFAULT_TAG),
        make_tag_step(url, image, version),
        make_push_step(url, image, DEFAULT_TAG),
        make_push_step(url, image, version),
    ];
    assert(step_views(res@) =~= push_steps_spec(url@, image@, version@));
    res
}

/// Printed when every push has succeeded.
pub const PUSH_DONE: &'static str = "Push completed successfully";

} // verus!
