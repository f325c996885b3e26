//! Properties that hold across the library's operations, with their proofs.

use crate::aws::{
    menu_choice_spec, menu_with_exits, profile_header, sso_addition_spec, MenuChoice,
    SSO_EXPIRED_NOTICE,
};
use crate::command::{outcome_spec, scp_plan_spec, ssh_plan_spec, target, RunEvent};
use crate::config::{EcrRegistry, Server, SsoConfig};
use crate::docker::{
    dotted, increment_fits, increment_spec, increments_fit, new_version_spec, push_step,
    push_steps_spec, tag_step, version_base, version_menu_spec, version_spec, Version,
    VersionIncrement, DEFAULT_TAG, VERSION_DEFAULT,
};
use crate::ecr_flows::{
    fetch_step, login_spec, push_spec, push_step_run, renew_spec, url_of, LoginView, PushView,
};
use crate::error::{error_type_text, error_value, rendered, StoolErrorType, StoolErrorView};
use crate::flows::{
    configured_view, connect_spec, password_prompt, picker_spec, server_menu_prompt,
    transfer_spec, ConnectView, PickerOutcomeView, PickerView, Reply, StepView, TransferView,
};
use crate::interactive::{
    numbered, selected_notice, server_choice_spec, server_label, server_menu_spec, ServerChoice, MENU_CANCEL,
};
use crate::text::{
    contains_spec, decimal, is_ascii_digit, lemma_decimal_digits, parse_u32_spec, split_spec,
    unsigned_digits,
};
use crate::transfer::{or_default, remote_spec, UPLOAD_DEFAULT};
use crate::update::update_all_spec;
use vstd::prelude::*;
use vstd::string::*;

verus! {

// ---------------------------------------------------------------------------
// Versions
// ---------------------------------------------------------------------------
/// Splitting always gives at least one piece.
proof fn lemma_split_nonempty(s: Seq<char>, sep: char)
    ensures
        split_spec(s, sep).len() >= 1,
    decreases s.len(),
{
    if s.len() > 0 {
        lemma_split_nonempty(s.drop_last(), sep);
    }
}

/// A string without the separator splits into itself.
proof fn lemma_split_without_sep(s: Seq<char>, sep: char)
    requires
        !s.contains(sep),
    ensures
        split_spec(s, sep) == seq![s],
    decreases s.len(),
{
    if s.len() > 0 {
        let t = s.drop_last();
        assert(!t.contains(sep)) by {
            if t.contains(sep) {
                let k = choose|k: int| 0 <= k < t.len() && t[k] == sep;
                assert(s[k] == sep);
            }
        }
        lemma_split_without_sep(t, sep);
        assert(s.last() != sep) by {
            assert(s[s.len() - 1] == s.last());
        }
        assert(t.push(s.last()) =~= s);
        assert(seq![t].update(0, t.push(s.last())) =~= seq![s]);
    } else {
        assert(s =~= Seq::<char>::empty());
    }
}

/// Splitting at a separator concatenates the pieces of both sides.
proof fn lemma_split_concat(a: Seq<char>, b: Seq<char>, sep: char)
    ensures
        split_spec(a + seq![sep] + b, sep) == split_spec(a, sep) + split_spec(b, sep),
    decreases b.len(),
{
    let whole = a + seq![sep] + b;
    if b.len() == 0 {
        assert(whole.drop_last() =~= a);
        assert(whole.last() == sep);
        assert(split_spec(b, sep) == seq![Seq::<char>::empty()]) by {
            assert(b =~= Seq::<char>::empty());
        }
        assert(split_spec(a, sep).push(Seq::<char>::empty()) =~= split_spec(a, sep) + seq![
            Seq::<char>::empty(),
        ]);
    } else {
        let b0 = b.drop_last();
        lemma_split_concat(a, b0, sep);
        lemma_split_nonempty(b0, sep);
        lemma_split_nonempty(a, sep);
        assert(whole.drop_last() =~= a + seq![sep] + b0);
        assert(whole.last() == b.last());
        let ra = split_spec(a, sep);
        let rb = split_spec(b0, sep);
        if b.last() == sep {
            assert((ra + rb).push(Seq::<char>::empty()) =~= ra + rb.push(Seq::<char>::empty()));
        } else {
            let r = ra + rb;
            assert(r.update(r.len() - 1, r.last().push(b.last())) =~= ra + rb.update(
                rb.len() - 1,
                rb.last().push(b.last()),
            ));
        }
    }
}

/// A decimal rendering reads back as its number.
proof fn lemma_parse_decimal(n: nat)
    requires
        n <= u32::MAX,
    ensures
        parse_u32_spec(decimal(n)) == Some(n as u32),
        !decimal(n).contains('.'),
{
    lemma_decimal_digits(n);
    let d = decimal(n);
    assert(is_ascii_digit(d[0]));
    assert(unsigned_digits(d) == d);
    if d.contains('.') {
        let k = choose|k: int| 0 <= k < d.len() && d[k] == '.';
        assert(is_ascii_digit(d[k]));
    }
}

/// `a.b.c` reads back as the version `(a, b, c)`.
pub proof fn lemma_dotted_parses(a: nat, b: nat, c: nat)
    requires
        a <= u32::MAX,
        b <= u32::MAX,
        c <= u32::MAX,
    ensures
        version_spec(dotted(a, b, c)) == Some(
            Version { major: a as u32, middle: b as u32, minor: c as u32 },
        ),
{
    reveal_strlit(".");
    lemma_parse_decimal(a);
    lemma_parse_decimal(b);
    lemma_parse_decimal(c);
    let (da, db, dc) = (decimal(a), decimal(b), decimal(c));
    assert(dotted(a, b, c) =~= (da + seq!['.'] + db) + seq!['.'] + dc);
    lemma_split_concat(da + seq!['.'] + db, dc, '.');
    lemma_split_concat(da, db, '.');
    lemma_split_without_sep(da, '.');
    lemma_split_without_sep(db, '.');
    lemma_split_without_sep(dc, '.');
    let parts = split_spec(dotted(a, b, c), '.');
    assert(parts =~= seq![da, db, dc]);
}

/// Every version reads back from its `x.y.z` rendering.
pub proof fn law_version_roundtrip(v: Version)
    ensures
        version_spec(dotted(v.major as nat, v.middle as nat, v.minor as nat)) == Some(v),
{
    lemma_dotted_parses(v.major as nat, v.middle as nat, v.minor as nat);
}

/// Raising a version gives a tag that reads back as the raised version:
/// major resets middle and minor, middle resets minor, minor keeps the
/// others. So the tag pushed now is the base of the next raise.
pub proof fn law_increment_reads_back(v: Version, inc: VersionIncrement)
    requires
        increment_fits(v, inc),
        inc != VersionIncrement::Latest,
    ensures
        version_spec(increment_spec(v, inc)) == Some(
            match inc {
                VersionIncrement::Major => Version { major: (v.major + 1) as u32, middle: 0, minor: 0 },
                VersionIncrement::Middle => Version { middle: (v.middle + 1) as u32, minor: 0, ..v },
                _ => Version { minor: (v.minor + 1) as u32, ..v },
            },
        ),
{
    match inc {
        VersionIncrement::Major => lemma_dotted_parses((v.major + 1) as nat, 0, 0),
        VersionIncrement::Middle => lemma_dotted_parses(
            v.major as nat,
            (v.middle + 1) as nat,
            0,
        ),
        _ => lemma_dotted_parses(v.major as nat, v.middle as nat, (v.minor + 1) as nat),
    }
}

/// The version menu shows what it yields: entry `k` of the menu for the
/// current tag names exactly the tag that picking entry `k` gives. The
/// preselected entry raises the minor part.
pub proof fn law_version_menu_shows_choice(current: Option<Seq<char>>)
    ensures
        version_menu_spec(current).len() == 3,
        version_menu_spec(current)[0] == "1. major ("@ + new_version_spec(current, 0)->Ok_0 + ")"@,
        version_menu_spec(current)[1] == "2. middle ("@ + new_version_spec(current, 1)->Ok_0 + ")"@,
        version_menu_spec(current)[2] == "3. minor ("@ + new_version_spec(current, 2)->Ok_0 + ")"@,
        new_version_spec(current, 3) is Err,
        version_menu_spec(current)[VERSION_DEFAULT as int] == "3. minor ("@ + new_version_spec(
            current,
            VERSION_DEFAULT as nat,
        )->Ok_0 + ")"@,
        version_base(current) matches Some(v) ==> new_version_spec(current, VERSION_DEFAULT as nat)
            == Ok::<Seq<char>, StoolErrorView>(increment_spec(v, VersionIncrement::Minor)),
{
    reveal_strlit("1. major (1.0.0)");
    reveal_strlit("1. major (");
    reveal_strlit("1.0.0");
    reveal_strlit(")");
    reveal_strlit("2. middle (0.1.0)");
    reveal_strlit("2. middle (");
    reveal_strlit("0.1.0");
    reveal_strlit("3. minor (0.0.1)");
    reveal_strlit("3. minor (");
    reveal_strlit("0.0.1");
    assert("1. major (1.0.0)"@ =~= "1. major ("@ + "1.0.0"@ + ")"@);
    assert("2. middle (0.1.0)"@ =~= "2. middle ("@ + "0.1.0"@ + ")"@);
    assert("3. minor (0.0.1)"@ =~= "3. minor ("@ + "0.0.1"@ + ")"@);
}

/// `latest` is not a version: it does not read as `x.y.z`.
proof fn lemma_latest_not_version()
    ensures
        version_spec(DEFAULT_TAG@) is None,
{
    reveal_strlit("latest");
    assert(!DEFAULT_TAG@.contains('.')) by {
        assert forall|i: int| 0 <= i < DEFAULT_TAG@.len() implies DEFAULT_TAG@[i] != '.' by {
            assert(DEFAULT_TAG@ =~= seq!['l', 'a', 't', 'e', 's', 't']);
        }
    }
    lemma_split_without_sep(DEFAULT_TAG@, '.');
}

/// Every push sends both tags: whatever entry of the version menu is
/// picked, the tag it yields is a version and never `latest`, and the push
/// that starts tags `latest` and that version from the freshly built
/// image, then pushes `latest` and the version, in that order.
pub proof fn law_push_sends_both_tags(
    regs: Seq<EcrRegistry>,
    r: nat,
    image: Seq<char>,
    current: Option<Seq<char>>,
    k: usize,
)
    requires
        increments_fit(current),
        new_version_spec(current, k as nat) is Ok,
    ensures
        ({
            let v = new_version_spec(current, k as nat)->Ok_0;
            &&& v != DEFAULT_TAG@
            &&& push_steps_spec(url_of(regs, r), image, v) == seq![
                tag_step(url_of(regs, r), image, DEFAULT_TAG@),
                tag_step(url_of(regs, r), image, v),
                push_step(url_of(regs, r), image, DEFAULT_TAG@),
                push_step(url_of(regs, r), image, v),
            ]
            &&& push_spec(regs, PushView::Versions(r, image, current), Reply::Picked(k))
                == push_step_run(regs, r, image, v, 0)
        }),
{
    let v = new_version_spec(current, k as nat)->Ok_0;
    lemma_latest_not_version();
    match version_base(current) {
        Some(b) => {
            let inc = if k == 0 {
                VersionIncrement::Major
            } else if k == 1 {
                VersionIncrement::Middle
            } else {
                VersionIncrement::Minor
            };
            assert(v == increment_spec(b, inc));
            law_increment_reads_back(b, inc);
        },
        None => {
            reveal_strlit("latest");
            reveal_strlit("1.0.0");
            reveal_strlit("0.1.0");
            reveal_strlit("0.0.1");
            assert(v.len() != DEFAULT_TAG@.len());
        },
    }
}

/// A push reports success only after its last step, the push of the
/// version tag; every earlier step either hands over to the next one or
/// ends the push with its failure.
pub proof fn law_push_succeeds_after_all_steps(
    regs: Seq<EcrRegistry>,
    r: nat,
    image: Seq<char>,
    version: Seq<char>,
    j: nat,
    ev: RunEvent,
)
    requires
        j < push_steps_spec(url_of(regs, r), image, version).len(),
    ensures
        ({
            let st = push_spec(regs, PushView::Pushing(r, image, version, j), Reply::Ran(ev));
            (st matches StepView::Finish { result: Ok(()), .. }) ==> j == 3
        }),
{
}

// ---------------------------------------------------------------------------
// Menus
// ---------------------------------------------------------------------------
/// In the server menu, entry `i` names server `i` and picking it chooses
/// that server; the entry after the servers asks for manual input; the
/// last entry is `Cancel` and picking it cancels.
pub proof fn law_server_menu_choices(servers: Seq<Server>)
    ensures
        server_menu_spec(servers).len() == servers.len() + 2,
        forall|i: int|
            0 <= i < servers.len() ==> #[trigger] server_menu_spec(servers)[i] == numbered(
                i as nat,
                server_label(servers[i]),
            ) && server_choice_spec(servers.len(), i as nat) == ServerChoice::Configured(
                i as usize,
            ),
        server_choice_spec(servers.len(), servers.len()) == ServerChoice::Manual,
        server_menu_spec(servers)[servers.len() + 1int] == MENU_CANCEL@,
        server_choice_spec(servers.len(), servers.len() + 1) == ServerChoice::Cancel,
{
}

/// In every menu that ends with manual input and cancel, the last entry
/// reads `<n + 2>. Cancel` and picking it cancels, the entry before it
/// reads `<n + 1>. Manual input` and picking it asks for input, and
/// picking a listed entry chooses it.
pub proof fn law_menu_exits(labels: Seq<Seq<char>>)
    ensures
        menu_with_exits(labels).len() == labels.len() + 2,
        menu_with_exits(labels)[labels.len() + 1int] == numbered(labels.len() + 1, "Cancel"@),
        menu_choice_spec(labels.len(), labels.len() + 1) == Ok::<
            MenuChoice,
            crate::error::StoolErrorView,
        >(MenuChoice::Cancel),
        menu_with_exits(labels)[labels.len() as int] == numbered(labels.len(), "Manual input"@),
        menu_choice_spec(labels.len(), labels.len()) == Ok::<
            MenuChoice,
            crate::error::StoolErrorView,
        >(MenuChoice::Manual),
        forall|i: nat|
            i < labels.len() ==> #[trigger] menu_choice_spec(labels.len(), i) == Ok::<
                MenuChoice,
                crate::error::StoolErrorView,
            >(MenuChoice::Chosen(i as usize)),
{
}

/// Cancelling in the server menu of `connect` ends it successfully, with
/// nothing printed and no command run.
pub proof fn law_connect_cancel(servers: Seq<Server>)
    requires
        servers.len() < usize::MAX,
    ensures
        connect_spec(servers, ConnectView::Start, Reply::Begin) == (StepView::Ask {
            next: ConnectView::Picking(PickerView::Menu),
            notices: Seq::empty(),
            prompt: server_menu_prompt(servers),
        }),
        connect_spec(
            servers,
            ConnectView::Picking(PickerView::Menu),
            Reply::Picked((servers.len() + 1) as usize),
        ) == (StepView::<ConnectView>::Finish { notices: Seq::empty(), result: Ok(()) }),
{
}

/// Cancelling in the mode menu of `transfer`, or later in its server
/// menu, ends it successfully with no command run.
pub proof fn law_transfer_cancel(servers: Seq<Server>, mode: crate::transfer::TransferMode)
    requires
        servers.len() < usize::MAX,
    ensures
        transfer_spec(servers, TransferView::Mode, Reply::Picked(2)) == (StepView::<
            TransferView,
        >::Finish { notices: Seq::empty(), result: Ok(()) }),
        transfer_spec(
            servers,
            TransferView::Picking(mode, PickerView::Menu),
            Reply::Picked((servers.len() + 1) as usize),
        ) == (StepView::<TransferView>::Finish { notices: Seq::empty(), result: Ok(()) }),
{
}

// ---------------------------------------------------------------------------
// ECR
// ---------------------------------------------------------------------------
/// An expired SSO session is renewed before the ECR password is fetched,
/// and a failed renewal ends the login with its error and fetches nothing.
pub proof fn law_expired_session_renewed_first(
    regs: Seq<EcrRegistry>,
    account: Seq<char>,
    region: Seq<char>,
    profile: Seq<char>,
    out: String,
)
    ensures
        login_spec(
            regs,
            LoginView::CheckingSession(account, region, profile),
            Reply::Output(RunEvent::Exited(false), out),
        ) == (StepView::Run {
            next: LoginView::Renewing(account, region, profile),
            notices: seq![SSO_EXPIRED_NOTICE@],
            plan: renew_spec(profile),
        }),
        login_spec(
            regs,
            LoginView::Renewing(account, region, profile),
            Reply::Ran(RunEvent::Exited(false)),
        ) is Finish,
        login_spec(
            regs,
            LoginView::Renewing(account, region, profile),
            Reply::Ran(RunEvent::Exited(true)),
        ) == fetch_step(account, region, Some(profile)),
{
}

/// A registry typed in by hand logs in without an SSO profile.
pub proof fn law_manual_registry_without_sso(regs: Seq<EcrRegistry>, account: Seq<char>, region: String)
    ensures
        login_spec(regs, LoginView::Region(account), Reply::Typed(region)) == fetch_step(
            account,
            region@,
            None,
        ),
{
}

/// The first failing tag or push ends `push_to_ecr` with that failure;
/// nothing after it runs and the success line is not printed.
pub proof fn law_push_stops_at_failure(
    regs: Seq<EcrRegistry>,
    r: nat,
    image: Seq<char>,
    version: Seq<char>,
    j: nat,
    ev: RunEvent,
)
    requires
        j < push_steps_spec(url_of(regs, r), image, version).len(),
        outcome_spec(push_steps_spec(url_of(regs, r), image, version)[j as int].plan, ev) is Err,
    ensures
        push_spec(regs, PushView::Pushing(r, image, version, j), Reply::Ran(ev)) == (StepView::<
            PushView,
        >::Finish {
            notices: Seq::empty(),
            result: outcome_spec(push_steps_spec(url_of(regs, r), image, version)[j as int].plan, ev),
        }),
{
}

// ---------------------------------------------------------------------------
// Logging in
// ---------------------------------------------------------------------------
/// A key file wins over a password: with a key, `ssh -i <key>` and
/// `scp -i <key>` are run whatever password is known.
pub proof fn law_key_wins(
    user: Seq<char>,
    ip: Seq<char>,
    source: Seq<char>,
    destination: Seq<char>,
    key: Seq<char>,
    password: Option<Seq<char>>,
)
    ensures
        ssh_plan_spec(user, ip, Some(key), password) == ssh_plan_spec(user, ip, Some(key), None),
        ssh_plan_spec(user, ip, Some(key), password).args == seq!["-i"@, key, target(user, ip)],
        scp_plan_spec(source, destination, Some(key), password) == scp_plan_spec(
            source,
            destination,
            Some(key),
            None,
        ),
        scp_plan_spec(source, destination, Some(key), password).args == seq![
            "-i"@,
            key,
            source,
            destination,
        ],
{
}

/// Picking a configured server uses its details as configured; only when
/// it has neither key nor password is a password asked for, and an empty
/// answer keeps the default SSH login (no password).
pub proof fn law_password_prompt_only_when_needed(servers: Seq<Server>, k: usize, answer: String)
    requires
        k < servers.len(),
    ensures
        ({
            let info = configured_view(servers[k as int]);
            let step = picker_spec(servers, PickerView::Menu, Reply::Picked(k));
            &&& (info.key_path is Some || info.password is Some) ==> step
                == PickerOutcomeView::Done(seq![selected_notice(servers[k as int])], Some(info))
            &&& (info.key_path is None && info.password is None) ==> step == PickerOutcomeView::Ask(
                PickerView::Password(info),
                seq![selected_notice(servers[k as int])],
                password_prompt(),
            )
            &&& answer@.len() == 0 ==> picker_spec(
                servers,
                PickerView::Password(info),
                Reply::Typed(answer),
            ) == PickerOutcomeView::Done(Seq::empty(), Some(info))
        }),
{
    let info = configured_view(servers[k as int]);
    let done = picker_spec(servers, PickerView::Password(info), Reply::Typed(answer));
    if answer@.len() == 0 {
        assert(done == PickerOutcomeView::Done(Seq::empty(), Some(info)));
    }
}

/// A blank remote path uploads to the home directory.
pub proof fn law_upload_default(user: Seq<char>, ip: Seq<char>, answer: Seq<char>)
    requires
        crate::text::trim_spec(answer).len() == 0,
    ensures
        remote_spec(user, ip, or_default(answer, UPLOAD_DEFAULT@)) == target(user, ip) + ":"@
            + UPLOAD_DEFAULT@,
{
}

// ---------------------------------------------------------------------------
// SSO profiles
// ---------------------------------------------------------------------------
/// `needle` occurs in `a + needle + b`.
proof fn lemma_contains_middle(a: Seq<char>, needle: Seq<char>, b: Seq<char>)
    ensures
        contains_spec(a + needle + b, needle),
{
    let whole = a + needle + b;
    let i = a.len() as int;
    assert(whole.subrange(i, i + needle.len()) =~= needle);
}

/// Writing an SSO profile is idempotent: once its text was appended, a
/// second write appends nothing.
pub proof fn law_sso_write_idempotent(existing: Seq<char>, c: SsoConfig)
    ensures
        sso_addition_spec(existing, c) matches Some(added) ==> sso_addition_spec(
            existing + added,
            c,
        ) is None,
{
    if let Some(added) = sso_addition_spec(existing, c) {
        let h = profile_header(c);
        let tail = added.subrange(h.len() + 1int, added.len() as int);
        reveal_strlit("\n");
        assert(added =~= seq!['\n'] + h + tail);
        assert(existing + added =~= (existing + seq!['\n']) + h + tail);
        lemma_contains_middle(existing + seq!['\n'], h, tail);
    }
}

// ---------------------------------------------------------------------------
// Errors and updates
// ---------------------------------------------------------------------------
/// Adding a cause never changes how an error reads; adding a message
/// appends `": <message>"` to the kind's text.
pub proof fn law_error_rendering(
    t: StoolErrorType,
    message: Seq<char>,
    source: Option<Seq<char>>,
)
    ensures
        rendered(error_value(t, None, source)) == error_type_text(t),
        rendered(error_value(t, Some(message), source)) == error_type_text(t) + ": "@ + message,
{
}

/// The combined update succeeds exactly when both updates do.
pub proof fn law_update_all(brew_ok: bool, rustup_ok: bool)
    ensures
        update_all_spec(brew_ok, rustup_ok) is Ok <==> (brew_ok && rustup_ok),
{
}

} // verus!
