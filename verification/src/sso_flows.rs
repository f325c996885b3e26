//! Picking an AWS SSO profile: the configuration menu of `aws sso
//! configure`, which may ask for a whole profile field by field, and the
//! login menu of `aws sso login`, which may ask for a profile name.
//!
//! Both are machines driven like those of [`crate::flows`]: started with
//! [`Reply::Begin`], each answers a [`Reply`] with a [`Pick`], either a
//! question to ask next or what was picked.

use crate::aws::{
    menu_choice_spec, select_sso_config, select_sso_profile, sso_menu, sso_menu_spec, MenuChoice,
    ProfilePick, SsoPick, SSO_CONFIG_PROMPT, SSO_PROFILE_PROMPT,
};
use crate::config::{SsoConfig, SsoConfigView};
use crate::error::{StoolErrorView, StoolResult};
use crate::flows::{Prompt, PromptView, Reply};
use crate::text::views;
use vstd::prelude::*;
use vstd::string::*;

verus! {

/// What a picking machine asks of the edge next.
pub enum Pick<S, T> {
    /// Ask `prompt`, then continue in state `next`.
    Ask { next: S, prompt: Prompt },
    /// The pick is over: what was picked, `None` when it was cancelled.
    Done(StoolResult<Option<T>>),
}

/// The mathematical value of a [`Pick`].
pub enum PickView<S, T> {
    Ask { next: S, prompt: PromptView },
    Done(Result<Option<T>, StoolErrorView>),
}

/// The view of an optional value.
pub open spec fn opt_views<T: View>(o: Option<T>) -> Option<T::V> {
    match o {
        Some(t) => Some(t@),
        None => None,
    }
}

impl<S: View, T: View> View for Pick<S, T> {
    type V = PickView<S::V, T::V>;

    open spec fn view(&self) -> PickView<S::V, T::V> {
        match self {
            Pick::Ask { next, prompt } => PickView::Ask { next: next@, prompt: prompt@ },
            Pick::Done(r) => PickView::Done(
                match r {
                    Ok(o) => Ok(opt_views(*o)),
                    Err(e) => Err(e@),
                },
            ),
        }
    }
}

// ---------------------------------------------------------------------------
// The SSO configuration menu
// ---------------------------------------------------------------------------
/// Question `n` of a profile entered by hand: profile name, session name,
/// start URL, region, account and role, in this order.
pub open spec fn sso_manual_prompt(n: nat) -> Seq<char> {
    if n == 0 {
        "Profile name:"@
    } else if n == 1 {
        "SSO session name:"@
    } else if n == 2 {
        "SSO start URL:"@
    } else if n == 3 {
        "Region:"@
    } else if n == 4 {
        "AWS Account ID:"@
    } else {
        "IAM Role name:"@
    }
}

/// The number of questions of a profile entered by hand.
pub const SSO_MANUAL_COUNT: usize = 6;

/// Builds [`sso_manual_prompt`].
pub fn sso_manual_question(n: usize) -> (res: Prompt)
    ensures
        res@ == (PromptView::Text { title: sso_manual_prompt(n as nat) }),
{
    let title = if n == 0 {
        "Profile name:"
    } else if n == 1 {
        "SSO session name:"
    } else if n == 2 {
        "SSO start URL:"
    } else if n == 3 {
        "Region:"
    } else if n == 4 {
        "AWS Account ID:"
    } else {
        "IAM Role name:"
    };
    Prompt::Text { title: String::from_str(title) }
}

/// The profile made of the six answers, in the order of the questions; its
/// output format is `json`.
pub open spec fn manual_profile(a: Seq<Seq<char>>) -> SsoConfigView {
    SsoConfigView {
        profile_name: a[0],
        sso_session_name: a[1],
        start_url: a[2],
        region: a[3],
        sso_account_id: a[4],
        sso_role_name: a[5],
        output_format: "json"@,
    }
}

/// Where the SSO configuration menu stands.
pub enum ConfigPickState {
    Start,
    /// The menu was shown.
    Menu,
    /// A profile is entered by hand; the answers so far, in order.
    Manual(Vec<String>),
}

/// The mathematical value of a [`ConfigPickState`].
pub enum ConfigPickView {
    Start,
    Menu,
    Manual(Seq<Seq<char>>),
}

impl View for ConfigPickState {
    type V = ConfigPickView;

    open spec fn view(&self) -> ConfigPickView {
        match self {
            ConfigPickState::Start => ConfigPickView::Start,
            ConfigPickState::Menu => ConfigPickView::Menu,
            ConfigPickState::Manual(a) => ConfigPickView::Manual(views(a@)),
        }
    }
}

/// Whether `reply` answers what the configuration menu asked in `state`.
pub open spec fn config_pick_expects(state: ConfigPickView, reply: Reply) -> bool {
    match state {
        ConfigPickView::Start => reply is Begin,
        ConfigPickView::Menu => reply is Picked,
        ConfigPickView::Manual(a) => reply is Typed && a.len() < 6,
    }
}

/// One step of picking the profile to configure: show the SSO menu; cancel
/// yields nothing, a listed profile yields that profile, manual input asks
/// the six questions in turn and yields the profile made of the answers.
pub open spec fn pick_config_spec(configs: Seq<SsoConfig>, state: ConfigPickView, reply: Reply) -> PickView<
    ConfigPickView,
    SsoConfigView,
> {
    match state {
        ConfigPickView::Start => PickView::Ask {
            next: ConfigPickView::Menu,
            prompt: PromptView::Choose {
                title: SSO_CONFIG_PROMPT@,
                items: sso_menu_spec(configs),
                default: 0,
            },
        },
        ConfigPickView::Menu => match reply {
            Reply::Picked(i) => match menu_choice_spec(configs.len(), i as nat) {
                Ok(MenuChoice::Cancel) => PickView::Done(Ok(None)),
                Ok(MenuChoice::Manual) => PickView::Ask {
                    next: ConfigPickView::Manual(Seq::empty()),
                    prompt: PromptView::Text { title: sso_manual_prompt(0) },
                },
                Ok(MenuChoice::Chosen(k)) => PickView::Done(Ok(Some(configs[k as int]@))),
                Err(e) => PickView::Done(Err(e)),
            },
            _ => PickView::Done(Ok(None)),
        },
        ConfigPickView::Manual(a) => match reply {
            Reply::Typed(t) => {
                let b = a.push(t@);
                if b.len() < 6 {
                    PickView::Ask {
                        next: ConfigPickView::Manual(b),
                        prompt: PromptView::Text { title: sso_manual_prompt(b.len()) },
                    }
                } else {
                    PickView::Done(Ok(Some(manual_profile(b))))
                }
            },
            _ => PickView::Done(Ok(None)),
        },
    }
}

/// Runs one step of picking the SSO profile to configure.
pub fn pick_sso_config(configs: &[SsoConfig], state: ConfigPickState, reply: Reply) -> (res: Pick<
    ConfigPickState,
    SsoConfig,
>)
    requires
        config_pick_expects(state@, reply),
    ensures
        res@ == pick_config_spec(configs@, state@, reply),
{
    match state {
        ConfigPickState::Start => Pick::Ask {
            next: ConfigPickState::Menu,
            prompt: Prompt::Choose {
                title: String::from_str(SSO_CONFIG_PROMPT),
                items: sso_menu(configs),
                default: 0,
            },
        },
        ConfigPickState::Menu => match reply {
            Reply::Picked(i) => match select_sso_config(configs, i) {
                Ok(SsoPick::Cancel) => Pick::Done(Ok(None)),
                Ok(SsoPick::Manual) => {
                    let answers: Vec<String> = Vec::new();
                    assert(views(answers@) =~= Seq::<Seq<char>>::empty());
                    Pick::Ask { next: ConfigPickState::Manual(answers), prompt: sso_manual_question(0) }
                },
                Ok(SsoPick::Chosen(c)) => Pick::Done(Ok(Some(c))),
                Err(e) => Pick::Done(Err(e)),
            },
            _ => Pick::Done(Ok(None)),
        },
        ConfigPickState::Manual(a) => match reply {
            Reply::Typed(t) => {
                let mut b = a;
                let ghost before = views(b@);
                b.push(t);
                assert(views(b@) =~= before.push(t@));
                if b.len() < SSO_MANUAL_COUNT {
                    let q = sso_manual_question(b.len());
                    Pick::Ask { next: ConfigPickState::Manual(b), prompt: q }
                } else {
                    assert(views(b@)[0] == b@[0]@);
                    assert(views(b@)[1] == b@[1]@);
                    assert(views(b@)[2] == b@[2]@);
                    assert(views(b@)[3] == b@[3]@);
                    assert(views(b@)[4] == b@[4]@);
                    assert(views(b@)[5] == b@[5]@);
                    let c = crate::aws::manual_sso_config(
                        b[0].clone(),
                        b[1].clone(),
                        b[2].clone(),
                        b[3].clone(),
                        b[4].clone(),
                        b[5].clone(),
                    );
                    Pick::Done(Ok(Some(c)))
                }
            },
            _ => Pick::Done(Ok(None)),
        },
    }
}

// ---------------------------------------------------------------------------
// The SSO login menu
// ---------------------------------------------------------------------------
/// Where the SSO login menu stands.
pub enum ProfilePickState {
    Start,
    /// The menu was shown.
    Menu,
    /// The profile name was asked for.
    Name,
}

impl View for ProfilePickState {
    type V = ProfilePickState;

    open spec fn view(&self) -> ProfilePickState {
        *self
    }
}

/// Whether `reply` answers what the login menu asked in `state`.
pub open spec fn profile_pick_expects(state: ProfilePickState, reply: Reply) -> bool {
    match state {
        ProfilePickState::Start => reply is Begin,
        ProfilePickState::Menu => reply is Picked,
        ProfilePickState::Name => reply is Typed,
    }
}

/// One step of picking the profile to log in with: show the SSO menu;
/// cancel yields nothing, a listed profile yields its name, manual input
/// asks for the name and yields what was typed.
pub open spec fn pick_profile_spec(
    configs: Seq<SsoConfig>,
    state: ProfilePickState,
    reply: Reply,
) -> PickView<ProfilePickState, Seq<char>> {
    match state {
        ProfilePickState::Start => PickView::Ask {
            next: ProfilePickState::Menu,
            prompt: PromptView::Choose {
                title: SSO_PROFILE_PROMPT@,
                items: sso_menu_spec(configs),
                default: 0,
            },
        },
        ProfilePickState::Menu => match reply {
            Reply::Picked(i) => match menu_choice_spec(configs.len(), i as nat) {
                Ok(MenuChoice::Cancel) => PickView::Done(Ok(None)),
                Ok(MenuChoice::Manual) => PickView::Ask {
                    next: ProfilePickState::Name,
                    prompt: PromptView::Text { title: sso_manual_prompt(0) },
                },
                Ok(MenuChoice::Chosen(k)) => PickView::Done(Ok(Some(configs[k as int].profile_name@))),
                Err(e) => PickView::Done(Err(e)),
            },
            _ => PickView::Done(Ok(None)),
        },
        ProfilePickState::Name => match reply {
            Reply::Typed(t) => PickView::Done(Ok(Some(t@))),
            _ => PickView::Done(Ok(None)),
        },
    }
}

/// Runs one step of picking the SSO profile to log in with.
pub fn pick_sso_profile(configs: &[SsoConfig], state: ProfilePickState, reply: Reply) -> (res: Pick<
    ProfilePickState,
    String,
>)
    requires
        profile_pick_expects(state, reply),
    ensures
        res@ == pick_profile_spec(configs@, state, reply),
{
    match state {
        ProfilePickState::Start => Pick::Ask {
            next: ProfilePickState::Menu,
            prompt: Prompt::Choose {
                title: String::from_str(SSO_PROFILE_PROMPT),
                items: sso_menu(configs),
                default: 0,
            },
        },
        ProfilePickState::Menu => match reply {
            Reply::Picked(i) => match select_sso_profile(configs, i) {
                Ok(ProfilePick::Cancel) => Pick::Done(Ok(None)),
                Ok(ProfilePick::Manual) => Pick::Ask {
                    next: ProfilePickState::Name,
                    prompt: sso_manual_question(0),
                },
                Ok(ProfilePick::Chosen(p)) => Pick::Done(Ok(Some(p))),
                Err(e) => Pick::Done(Err(e)),
            },
            _ => Pick::Done(Ok(None)),
        },
        ProfilePickState::Name => match reply {
            Reply::Typed(t) => Pick::Done(Ok(Some(t))),
            _ => Pick::Done(Ok(None)),
        },
    }
}

} // verus!
