//! What the user is told.

use vstd::prelude::*;

use crate::config::{ConfigView, CredentialStore};
use crate::login::LoginReport;
use crate::logout::LogoutReport;
use crate::text::{opt_view, str_view};

verus! {

/// A line for the user.
pub enum Notice {
    /// It is done.
    Success(String),
    Plain(String),
    /// The user may want to do something about it.
    Warning(String),
    /// A line that ends in the name of a place.
    Place { label: String, place: String },
}

/// What a `Notice` says.
pub enum NoticeView {
    Success(Seq<char>),
    Plain(Seq<char>),
    Warning(Seq<char>),
    Place { label: Seq<char>, place: Seq<char> },
}

impl View for Notice {
    type V = NoticeView;

    open spec fn view(&self) -> NoticeView {
        match self {
            Notice::Success(text) => NoticeView::Success(text@),
            Notice::Plain(text) => NoticeView::Plain(text@),
            Notice::Warning(text) => NoticeView::Warning(text@),
            Notice::Place { label, place } => NoticeView::Place { label: label@, place: place@ },
        }
    }
}

/// Notices, by what they say.
pub open spec fn notices_view(notices: Seq<Notice>) -> Seq<NoticeView> {
    notices.map_values(|notice: Notice| notice@)
}

/// Adds a line.
fn say(notices: &mut Vec<Notice>, notice: Notice)
    ensures
        notices_view(final(notices)@) == notices_view(old(notices)@).push(notice@),
{
    notices.push(notice);
    assert(notices_view(notices@) =~= notices_view(old(notices)@).push(notice@));
}

/// No lines.
fn nothing() -> (notices: Vec<Notice>)
    ensures
        notices_view(notices@) == Seq::<NoticeView>::empty(),
{
    let notices: Vec<Notice> = Vec::new();
    assert(notices_view(notices@) =~= Seq::<NoticeView>::empty());
    notices
}

/// A line, or none.
pub open spec fn line_if(condition: bool, line: NoticeView) -> Seq<NoticeView> {
    if condition {
        seq![line]
    } else {
        seq![]
    }
}

/// Why older logins stay queued.
pub open spec fn cleanup_line(warning: Option<Seq<char>>) -> Seq<NoticeView> {
    match warning {
        Some(warning) => seq![
            NoticeView::Warning(
                "  - Warning: could not finish cleaning up an older browser login; it remains queued for cleanup: "@
                    + warning,
            ),
        ],
        None => seq![],
    }
}

fn say_cleanup(notices: &mut Vec<Notice>, warning: &Option<String>)
    ensures
        notices_view(final(notices)@) == notices_view(old(notices)@) + cleanup_line(
            opt_view(*warning),
        ),
{
    if let Some(warning) = warning {
        let mut text =
            "  - Warning: could not finish cleaning up an older browser login; it remains queued for cleanup: ".to_owned();
        text.append(warning.as_str());
        say(notices, Notice::Warning(text));
    }
    assert(notices_view(notices@) =~= notices_view(old(notices)@) + cleanup_line(
        opt_view(*warning),
    ));
}

/// Where the tokens of a new login are. `file` is the name of their file where
/// they are in one; without it nothing more is said.
pub open spec fn storage_lines(store: CredentialStore, unix: bool, file: Option<Seq<char>>) -> Seq<
    NoticeView,
> {
    match store {
        CredentialStore::Keyring => seq![
            NoticeView::Place {
                label: "  - Credentials saved to: "@,
                place: "OS credential store"@,
            },
        ],
        CredentialStore::File => seq![
            NoticeView::Warning(
                if unix {
                    "  - Warning: credentials are stored in a plaintext file with user-only permissions."@
                } else {
                    "  - Warning: credentials are stored in a plaintext file using the platform's default user-directory permissions."@
                },
            ),
        ] + match file {
            Some(file) => seq![
                NoticeView::Place { label: "  - Credentials saved to: "@, place: file },
            ],
            None => seq![],
        },
    }
}

/// What the user is told of a login before the place of its tokens.
pub open spec fn login_opening(report: LoginReport, unix: bool, file: Option<Seq<char>>) -> Seq<
    NoticeView,
> {
    seq![
        NoticeView::Success("✓ Logged in to S2"@),
        NoticeView::Plain("  - Browser login selected."@),
    ] + line_if(
        report.login.replaced,
        NoticeView::Plain("  - Previous browser login replaced."@),
    ) + storage_lines(report.login.session.credential_store, unix, file)
}

/// What the user is told of a login that is done with. Where the file of the
/// tokens cannot be named, the lines end there.
pub open spec fn login_lines(
    report: LoginReport,
    unix: bool,
    file: Option<Seq<char>>,
    environment_token: bool,
) -> Seq<NoticeView> {
    let opening = login_opening(report, unix, file);
    if report.login.session.credential_store == CredentialStore::File && file is None {
        opening
    } else {
        opening + seq![
            NoticeView::Place {
                label: "  - Configuration saved to: "@,
                place: report.login.saved_path@,
            },
        ] + cleanup_line(opt_view(report.warning)) + line_if(
            environment_token,
            NoticeView::Warning(
                "  - Warning: S2_ACCESS_TOKEN is set and remains active. Unset it to use browser login."@,
            ),
        )
    }
}

/// What the user is told of a login that is done with. `file` is the name of the
/// file of its tokens, for a login that keeps them in a file.
pub fn login_notices(
    report: &LoginReport,
    unix: bool,
    file: Option<&str>,
    environment_token: bool,
) -> (notices: Vec<Notice>)
    ensures
        notices_view(notices@) == login_lines(*report, unix, str_view(file), environment_token),
{
    let mut notices = nothing();
    say(&mut notices, Notice::Success("✓ Logged in to S2".to_owned()));
    say(&mut notices, Notice::Plain("  - Browser login selected.".to_owned()));
    if report.login.replaced {
        say(&mut notices, Notice::Plain("  - Previous browser login replaced.".to_owned()));
    }
    let label = "  - Credentials saved to: ".to_owned();
    match report.login.session.credential_store {
        CredentialStore::Keyring => {
            let place = "OS credential store".to_owned();
            say(&mut notices, Notice::Place { label, place });
        },
        CredentialStore::File => {
            let warning = if unix {
                "  - Warning: credentials are stored in a plaintext file with user-only permissions."
            } else {
                "  - Warning: credentials are stored in a plaintext file using the platform's default user-directory permissions."
            };
            say(&mut notices, Notice::Warning(warning.to_owned()));
            match file {
                Some(file) => {
                    let place = file.to_owned();
                    say(&mut notices, Notice::Place { label, place });
                },
                None => {
                    assert(notices_view(notices@) =~= login_opening(*report, unix, None));
                    return notices;
                },
            }
        },
    }
    assert(notices_view(notices@) =~= login_opening(*report, unix, str_view(file)));
    let label = "  - Configuration saved to: ".to_owned();
    let place = report.login.saved_path.clone();
    say(&mut notices, Notice::Place { label, place });
    say_cleanup(&mut notices, &report.warning);
    if environment_token {
        let warning =
            "  - Warning: S2_ACCESS_TOKEN is set and remains active. Unset it to use browser login.";
        say(&mut notices, Notice::Warning(warning.to_owned()));
    }
    assert(notices_view(notices@) =~= login_lines(
        *report,
        unix,
        str_view(file),
        environment_token,
    ));
    notices
}

/// What the user is told of the access token that is used from now on.
pub open spec fn remaining_lines(
    config: ConfigView,
    removed: bool,
    environment_token: bool,
) -> Seq<NoticeView> {
    if environment_token {
        seq![NoticeView::Warning("  - Warning: S2_ACCESS_TOKEN is set and remains active."@)]
    } else if config.has_stored_access_token() {
        seq![
            NoticeView::Plain(
                if removed {
                    "  - Access token selected."@
                } else {
                    "  - Access token remains configured."@
                },
            ),
        ]
    } else {
        seq![]
    }
}

/// What the user is told of a logout that is done with.
pub open spec fn logout_lines(report: LogoutReport, environment_token: bool) -> Seq<NoticeView> {
    let removed = report.removed is Some;
    seq![
        NoticeView::Success(
            if removed {
                "✓ Browser login removed"@
            } else {
                "✓ No browser login to remove"@
            },
        ),
    ] + remaining_lines(report.config@, removed, environment_token) + line_if(
        removed && report.local_only,
        NoticeView::Warning(
            "  - Local credentials were removed without server-side revocation."@,
        ),
    ) + cleanup_line(opt_view(report.warning))
}

/// What the user is told of a logout that is done with.
pub fn logout_notices(report: &LogoutReport, environment_token: bool) -> (notices: Vec<Notice>)
    ensures
        notices_view(notices@) == logout_lines(*report, environment_token),
{
    let removed = report.removed.is_some();
    let mut notices = nothing();
    let done = if removed {
        "✓ Browser login removed"
    } else {
        "✓ No browser login to remove"
    };
    say(&mut notices, Notice::Success(done.to_owned()));
    if environment_token {
        let warning = "  - Warning: S2_ACCESS_TOKEN is set and remains active.";
        say(&mut notices, Notice::Warning(warning.to_owned()));
    } else if report.config.has_stored_access_token() {
        let text = if removed {
            "  - Access token selected."
        } else {
            "  - Access token remains configured."
        };
        say(&mut notices, Notice::Plain(text.to_owned()));
    }
    if removed && report.local_only {
        let warning = "  - Local credentials were removed without server-side revocation.";
        say(&mut notices, Notice::Warning(warning.to_owned()));
    }
    say_cleanup(&mut notices, &report.warning);
    assert(notices_view(notices@) =~= logout_lines(*report, environment_token));
    notices
}

/// How the page to authorize a login is brought to the user.
pub enum Browser {
    /// The user does not want a browser to be opened.
    NotAsked,
    Opened,
    /// Why none could be opened.
    Failed(String),
}

/// What the user is told of the page to authorize a login.
pub open spec fn page_lines(page: Seq<char>, browser: Browser) -> Seq<NoticeView> {
    let manual = NoticeView::Place {
        label: "Open this URL to finish logging in:\n"@,
        place: page,
    };
    match browser {
        Browser::NotAsked => seq![manual],
        Browser::Opened => seq![
            NoticeView::Plain("Opening your browser to finish logging in..."@),
            NoticeView::Place { label: "If it does not open, visit:\n"@, place: page },
        ],
        Browser::Failed(reason) => seq![
            NoticeView::Plain("Could not open a browser automatically: "@ + reason@),
            manual,
        ],
    }
}

/// What the user is told of the page to authorize a login.
pub fn show_authorization_url(page: &str, browser: Browser) -> (notices: Vec<Notice>)
    ensures
        notices_view(notices@) == page_lines(page@, browser),
{
    let mut notices = nothing();
    match &browser {
        Browser::NotAsked => {},
        Browser::Opened => {
            let text = "Opening your browser to finish logging in...".to_owned();
            say(&mut notices, Notice::Plain(text));
            let label = "If it does not open, visit:\n".to_owned();
            say(&mut notices, Notice::Place { label, place: page.to_owned() });
            assert(notices_view(notices@) =~= page_lines(page@, browser));
            return notices;
        },
        Browser::Failed(reason) => {
            let mut text = "Could not open a browser automatically: ".to_owned();
            text.append(reason.as_str());
            say(&mut notices, Notice::Plain(text));
        },
    }
    let label = "Open this URL to finish logging in:\n".to_owned();
    say(&mut notices, Notice::Place { label, place: page.to_owned() });
    assert(notices_view(notices@) =~= page_lines(page@, browser));
    notices
}

/// After a logout the user is told whether a login was removed, then which access token
/// is used from now on (that of the environment, with a warning, or the configured
/// one), then that nothing was revoked where that is so, and then why something stays
/// queued, if it does. Nothing else is said.
pub proof fn law_logouts_are_told_of(report: LogoutReport, environment_token: bool)
    ensures
        ({
            let removed = report.removed is Some;
            let token = report.config@.stored_access_token is Some || report.config@.access_token
                is Some;
            let first = if removed {
                seq![NoticeView::Success("✓ Browser login removed"@)]
            } else {
                seq![NoticeView::Success("✓ No browser login to remove"@)]
            };
            let second = if environment_token {
                seq![
                    NoticeView::Warning("  - Warning: S2_ACCESS_TOKEN is set and remains active."@),
                ]
            } else if token && removed {
                seq![NoticeView::Plain("  - Access token selected."@)]
            } else if token {
                seq![NoticeView::Plain("  - Access token remains configured."@)]
            } else {
                seq![]
            };
            let third = if removed && report.local_only {
                seq![
                    NoticeView::Warning(
                        "  - Local credentials were removed without server-side revocation."@,
                    ),
                ]
            } else {
                seq![]
            };
            let last = if report.warning is Some {
                seq![
                    NoticeView::Warning(
                        "  - Warning: could not finish cleaning up an older browser login; it remains queued for cleanup: "@
                            + report.warning->0@,
                    ),
                ]
            } else {
                seq![]
            };
            logout_lines(report, environment_token) == first + second + third + last
        }),
{
}

/// After a login the user is told that it is selected, whether it replaced another one,
/// where its tokens are (with a warning where they are in a plain file), where the
/// configuration is, why something stays queued, and that an access token of the
/// environment comes first.
pub proof fn law_logins_are_told_of(
    report: LoginReport,
    unix: bool,
    file: Seq<char>,
    environment_token: bool,
)
    ensures
        ({
            let opening = seq![
                NoticeView::Success("✓ Logged in to S2"@),
                NoticeView::Plain("  - Browser login selected."@),
            ] + if report.login.replaced {
                seq![NoticeView::Plain("  - Previous browser login replaced."@)]
            } else {
                seq![]
            };
            let keyring = seq![
                NoticeView::Place {
                    label: "  - Credentials saved to: "@,
                    place: "OS credential store"@,
                },
            ];
            let plain_file = if unix {
                seq![
                    NoticeView::Warning(
                        "  - Warning: credentials are stored in a plaintext file with user-only permissions."@,
                    ),
                ]
            } else {
                seq![
                    NoticeView::Warning(
                        "  - Warning: credentials are stored in a plaintext file using the platform's default user-directory permissions."@,
                    ),
                ]
            };
            let named = seq![
                NoticeView::Place { label: "  - Credentials saved to: "@, place: file },
            ];
            let saved = seq![
                NoticeView::Place {
                    label: "  - Configuration saved to: "@,
                    place: report.login.saved_path@,
                },
            ];
            let queued = if report.warning is Some {
                seq![
                    NoticeView::Warning(
                        "  - Warning: could not finish cleaning up an older browser login; it remains queued for cleanup: "@
                            + report.warning->0@,
                    ),
                ]
            } else {
                seq![]
            };
            let environment = if environment_token {
                seq![
                    NoticeView::Warning(
                        "  - Warning: S2_ACCESS_TOKEN is set and remains active. Unset it to use browser login."@,
                    ),
                ]
            } else {
                seq![]
            };
            &&& report.login.session.credential_store == CredentialStore::Keyring ==> login_lines(
                report,
                unix,
                None,
                environment_token,
            ) == opening + keyring + saved + queued + environment
            &&& report.login.session.credential_store == CredentialStore::File ==> login_lines(
                report,
                unix,
                Some(file),
                environment_token,
            ) == opening + plain_file + named + saved + queued + environment
            &&& report.login.session.credential_store == CredentialStore::File ==> login_lines(
                report,
                unix,
                None,
                environment_token,
            ) == opening + plain_file
        }),
{
}

}
