//! The external-application dispatcher: translates a logical user action
//! into an ordered cascade of platform command lines. The host spawns the
//! commands in order, detached and without waiting; the first command
//! that the OS accepts wins with its success message, and an exhausted
//! cascade is turned into a [`BackendError`] by [`exhausted_error`].

use vstd::prelude::*;
use vstd::string::StrSliceExecFns;
use vstd::string::StringExecFns;
use crate::text::{cleaned_path, clean_path, digits_of, extract_digits};
use crate::uri::{
    mailto_target, mailto_uri, opt_view, tel_target, tel_uri, whatsapp_app_target,
    whatsapp_app_uri, whatsapp_web_target, whatsapp_web_url,
};
use crate::phone::{min_chat_digits, normalize_chat_phone, prefixed_digits};
use crate::BackendError;

verus! {

/// The target operating system, chosen by the host at run time.
#[derive(Clone, Copy)]
pub enum Platform {
    MacOs,
    Windows,
    Linux,
}

/// One command line in a cascade, with the message reported when the
/// OS accepts its launch.
pub struct Attempt {
    pub program: String,
    pub args: Vec<String>,
    pub success_message: String,
}

/// How an exhausted cascade is reported.
pub enum FailurePolicy {
    /// Every file-manager probe failed: [`BackendError::NoFileManagerFound`].
    NoManager,
    /// The prefix followed by the last spawn failure's reason.
    PrefixLast(String),
    /// The prefix followed by every spawn failure's reason, joined
    /// with ` and `.
    JoinAll(String),
}

/// An ordered cascade of launch attempts and its exhaustion policy.
pub struct DispatchPlan {
    pub attempts: Vec<Attempt>,
    pub on_exhausted: FailurePolicy,
}

/// The attempt runs `prog` with arguments `args` and reports `msg` on
/// an accepted launch.
pub open spec fn attempt_is(a: Attempt, prog: Seq<char>, args: Seq<Seq<char>>, msg: Seq<char>) -> bool {
    &&& a.program@ == prog
    &&& a.args.deep_view() == args
    &&& a.success_message@ == msg
}

// ---------------------------------------------------------------------
// Cascade construction helpers
// ---------------------------------------------------------------------

fn args0() -> (v: Vec<String>)
    ensures
        v.deep_view() == Seq::<Seq<char>>::empty(),
{
    let v: Vec<String> = Vec::new();
    proof {
        assert(v.deep_view() =~= Seq::<Seq<char>>::empty());
    }
    v
}

fn args1(a0: String) -> (v: Vec<String>)
    ensures
        v.deep_view() == seq![a0@],
{
    let ghost g0 = a0@;
    let mut v: Vec<String> = Vec::new();
    v.push(a0);
    proof {
        assert(v.deep_view() =~= seq![g0]);
    }
    v
}

fn args2(a0: String, a1: String) -> (v: Vec<String>)
    ensures
        v.deep_view() == seq![a0@, a1@],
{
    let ghost g0 = a0@;
    let ghost g1 = a1@;
    let mut v: Vec<String> = Vec::new();
    v.push(a0);
    v.push(a1);
    proof {
        assert(v.deep_view() =~= seq![g0, g1]);
    }
    v
}

fn args3(a0: String, a1: String, a2: String) -> (v: Vec<String>)
    ensures
        v.deep_view() == seq![a0@, a1@, a2@],
{
    let ghost g0 = a0@;
    let ghost g1 = a1@;
    let ghost g2 = a2@;
    let mut v: Vec<String> = Vec::new();
    v.push(a0);
    v.push(a1);
    v.push(a2);
    proof {
        assert(v.deep_view() =~= seq![g0, g1, g2]);
    }
    v
}

fn args4(a0: String, a1: String, a2: String, a3: String) -> (v: Vec<String>)
    ensures
        v.deep_view() == seq![a0@, a1@, a2@, a3@],
{
    let ghost g0 = a0@;
    let ghost g1 = a1@;
    let ghost g2 = a2@;
    let ghost g3 = a3@;
    let mut v: Vec<String> = Vec::new();
    v.push(a0);
    v.push(a1);
    v.push(a2);
    v.push(a3);
    proof {
        assert(v.deep_view() =~= seq![g0, g1, g2, g3]);
    }
    v
}

fn attempt(prog: &str, args: Vec<String>, msg: &str) -> (a: Attempt)
    ensures
        attempt_is(a, prog@, args.deep_view(), msg@),
{
    Attempt { program: String::from_str(prog), args, success_message: String::from_str(msg) }
}

// ---------------------------------------------------------------------
// The per-operation plans
// ---------------------------------------------------------------------

/// The program that opens an arbitrary URI on each platform.
pub open spec fn uri_launcher_program(platform: Platform) -> Seq<char> {
    match platform {
        Platform::MacOs => "open"@,
        Platform::Windows => "cmd"@,
        Platform::Linux => "xdg-open"@,
    }
}

/// The argument list that hands `uri` to the platform URI opener.
pub open spec fn uri_launcher_args(platform: Platform, uri: Seq<char>) -> Seq<Seq<char>> {
    match platform {
        Platform::MacOs => seq![uri],
        Platform::Windows => seq!["/c"@, "start"@, ""@, uri],
        Platform::Linux => seq![uri],
    }
}

fn uri_attempt(platform: Platform, uri: String, msg: &str) -> (a: Attempt)
    ensures
        attempt_is(a, uri_launcher_program(platform), uri_launcher_args(platform, uri@), msg@),
{
    match platform {
        Platform::MacOs => attempt("open", args1(uri), msg),
        Platform::Windows => attempt(
            "cmd",
            args4(
                String::from_str("/c"),
                String::from_str("start"),
                String::from_str(""),
                uri,
            ),
            msg,
        ),
        Platform::Linux => attempt("xdg-open", args1(uri), msg),
    }
}

/// The email cascade: one launch of the platform URI opener on the
/// `mailto:` URI; a failure is reported with the OS reason.
pub open spec fn email_plan_shape(
    r: DispatchPlan,
    email: Seq<char>,
    subject: Option<Seq<char>>,
    body: Option<Seq<char>>,
    platform: Platform,
) -> bool {
    &&& r.attempts.len() == 1
    &&& attempt_is(
        r.attempts[0],
        uri_launcher_program(platform),
        uri_launcher_args(platform, mailto_uri(email, subject, body)),
        "Email client opened successfully"@,
    )
    &&& r.on_exhausted matches FailurePolicy::PrefixLast(p) && p@
        == "Failed to open email client: "@
}

/// Plans the send-email action.
pub fn email_plan(
    email: &str,
    subject: Option<&str>,
    body: Option<&str>,
    platform: Platform,
) -> (r: DispatchPlan)
    ensures
        email_plan_shape(r, email@, opt_view(subject), opt_view(body), platform),
{
    let uri = mailto_target(email, subject, body);
    let att = uri_attempt(platform, uri, "Email client opened successfully");
    let mut attempts: Vec<Attempt> = Vec::new();
    attempts.push(att);
    DispatchPlan {
        attempts,
        on_exhausted: FailurePolicy::PrefixLast(String::from_str("Failed to open email client: ")),
    }
}

/// The reveal-in-folder cascade on the cleaned path (whitespace
/// trimmed, one leading `file://` removed): the platform "select in
/// file manager" invocation; on Linux, an ordered probe of the known
/// file managers, exhausted as [`BackendError::NoFileManagerFound`].
pub open spec fn reveal_plan_shape(r: DispatchPlan, path: Seq<char>, platform: Platform) -> bool {
    match platform {
        Platform::Windows => {
            &&& r.attempts.len() == 1
            &&& attempt_is(
                r.attempts[0],
                "explorer"@,
                seq!["/select,"@, cleaned_path(path)],
                "Success"@,
            )
            &&& r.on_exhausted matches FailurePolicy::PrefixLast(p) && p@ == ""@
        },
        Platform::MacOs => {
            &&& r.attempts.len() == 1
            &&& attempt_is(r.attempts[0], "open"@, seq!["-R"@, cleaned_path(path)], "Success"@)
            &&& r.on_exhausted matches FailurePolicy::PrefixLast(p) && p@ == ""@
        },
        Platform::Linux => {
            &&& r.attempts.len() == 4
            &&& attempt_is(r.attempts[0], "nautilus"@, seq!["--select"@, cleaned_path(path)], "Success"@)
            &&& attempt_is(r.attempts[1], "dolphin"@, seq!["--select"@, cleaned_path(path)], "Success"@)
            &&& attempt_is(r.attempts[2], "thunar"@, seq!["--select"@, cleaned_path(path)], "Success"@)
            &&& attempt_is(r.attempts[3], "nemo"@, seq!["--select"@, cleaned_path(path)], "Success"@)
            &&& r.on_exhausted matches FailurePolicy::NoManager
        },
    }
}

/// Plans the reveal-in-folder action.
pub fn reveal_plan(path: &str, platform: Platform) -> (r: DispatchPlan)
    ensures
        reveal_plan_shape(r, path@, platform),
{
    let cleaned = clean_path(path);
    match platform {
        Platform::Windows => {
            let att = attempt(
                "explorer",
                args2(String::from_str("/select,"), cleaned),
                "Success",
            );
            let mut attempts: Vec<Attempt> = Vec::new();
            attempts.push(att);
            DispatchPlan {
                attempts,
                on_exhausted: FailurePolicy::PrefixLast(String::from_str("")),
            }
        },
        Platform::MacOs => {
            let att = attempt(
                "open",
                args2(String::from_str("-R"), cleaned),
                "Success",
            );
            let mut attempts: Vec<Attempt> = Vec::new();
            attempts.push(att);
            DispatchPlan {
                attempts,
                on_exhausted: FailurePolicy::PrefixLast(String::from_str("")),
            }
        },
        Platform::Linux => {
            let mut attempts: Vec<Attempt> = Vec::new();
            attempts.push(attempt(
                "nautilus",
                args2(String::from_str("--select"), cleaned.clone()),
                "Success",
            ));
            attempts.push(attempt(
                "dolphin",
                args2(String::from_str("--select"), cleaned.clone()),
                "Success",
            ));
            attempts.push(attempt(
                "thunar",
                args2(String::from_str("--select"), cleaned.clone()),
                "Success",
            ));
            attempts.push(attempt(
                "nemo",
                args2(String::from_str("--select"), cleaned),
                "Success",
            ));
            DispatchPlan { attempts, on_exhausted: FailurePolicy::NoManager }
        },
    }
}

/// The message reported when a folder was opened.
pub open spec fn folder_opened_message(path: Seq<char>) -> Seq<char> {
    "Folder opened: "@ + cleaned_path(path)
}

/// The open-folder cascade on the cleaned path (whitespace trimmed, one
/// leading `file://` removed): Windows quotes the path for `explorer`;
/// macOS retries by revealing the path after a failed open, and reports
/// both reasons when both fail; Linux hands the path to `xdg-open`.
pub open spec fn open_folder_plan_shape(r: DispatchPlan, path: Seq<char>, platform: Platform) -> bool {
    match platform {
        Platform::Windows => {
            &&& r.attempts.len() == 1
            &&& attempt_is(
                r.attempts[0],
                "explorer"@,
                seq!["\""@ + cleaned_path(path) + "\""@],
                folder_opened_message(path),
            )
            &&& r.on_exhausted matches FailurePolicy::PrefixLast(p) && p@
                == "Failed to open folder: "@
        },
        Platform::MacOs => {
            &&& r.attempts.len() == 2
            &&& attempt_is(r.attempts[0], "open"@, seq![cleaned_path(path)], folder_opened_message(path))
            &&& attempt_is(
                r.attempts[1],
                "open"@,
                seq!["-R"@, cleaned_path(path)],
                folder_opened_message(path),
            )
            &&& r.on_exhausted matches FailurePolicy::JoinAll(p) && p@ == "Failed to open folder: "@
        },
        Platform::Linux => {
            &&& r.attempts.len() == 1
            &&& attempt_is(r.attempts[0], "xdg-open"@, seq![cleaned_path(path)], folder_opened_message(path))
            &&& r.on_exhausted matches FailurePolicy::PrefixLast(p) && p@
                == "Failed to open folder: "@
        },
    }
}

/// Plans the open-folder action.
pub fn open_folder_plan(path: &str, platform: Platform) -> (r: DispatchPlan)
    ensures
        open_folder_plan_shape(r, path@, platform),
{
    let cleaned = clean_path(path);
    let mut msg = String::from_str("Folder opened: ");
    msg.append(cleaned.as_str());
    match platform {
        Platform::Windows => {
            let mut quoted = String::from_str("\"");
            quoted.append(cleaned.as_str());
            quoted.append("\"");
            let att = attempt("explorer", args1(quoted), msg.as_str());
            let mut attempts: Vec<Attempt> = Vec::new();
            attempts.push(att);
            DispatchPlan {
                attempts,
                on_exhausted: FailurePolicy::PrefixLast(
                    String::from_str("Failed to open folder: "),
                ),
            }
        },
        Platform::MacOs => {
            let mut attempts: Vec<Attempt> = Vec::new();
            attempts.push(attempt("open", args1(cleaned.clone()), msg.as_str()));
            attempts.push(attempt(
                "open",
                args2(String::from_str("-R"), cleaned),
                msg.as_str(),
            ));
            DispatchPlan {
                attempts,
                on_exhausted: FailurePolicy::JoinAll(String::from_str("Failed to open folder: ")),
            }
        },
        Platform::Linux => {
            let att = attempt("xdg-open", args1(cleaned), msg.as_str());
            let mut attempts: Vec<Attempt> = Vec::new();
            attempts.push(att);
            DispatchPlan {
                attempts,
                on_exhausted: FailurePolicy::PrefixLast(
                    String::from_str("Failed to open folder: "),
                ),
            }
        },
    }
}

/// The argument list that hands the `tel:` URI to the platform opener;
/// unlike the generic URI opener, the Windows `start` form carries no
/// window-title placeholder here.
pub open spec fn call_launcher_args(platform: Platform, uri: Seq<char>) -> Seq<Seq<char>> {
    match platform {
        Platform::MacOs => seq![uri],
        Platform::Windows => seq!["/c"@, "start"@, uri],
        Platform::Linux => seq![uri],
    }
}

/// The call cascade: one launch of the platform opener on the `tel:`
/// URI built from the decimal digits of the number.
pub open spec fn call_plan_shape(r: DispatchPlan, phone: Seq<char>, platform: Platform) -> bool {
    &&& r.attempts.len() == 1
    &&& attempt_is(
        r.attempts[0],
        uri_launcher_program(platform),
        call_launcher_args(platform, tel_uri(digits_of(phone))),
        "Phone call initiated successfully"@,
    )
    &&& r.on_exhausted matches FailurePolicy::PrefixLast(p) && p@
        == "Failed to initiate phone call: "@
}

/// Plans the place-a-call action.
pub fn call_plan(phone: &str, platform: Platform) -> (r: DispatchPlan)
    ensures
        call_plan_shape(r, phone@, platform),
{
    let digits = extract_digits(phone);
    let uri = tel_target(digits.as_str());
    let att = match platform {
        Platform::MacOs => attempt("open", args1(uri), "Phone call initiated successfully"),
        Platform::Windows => attempt(
            "cmd",
            args3(String::from_str("/c"), String::from_str("start"), uri),
            "Phone call initiated successfully",
        ),
        Platform::Linux => attempt("xdg-open", args1(uri), "Phone call initiated successfully"),
    };
    let mut attempts: Vec<Attempt> = Vec::new();
    attempts.push(att);
    DispatchPlan {
        attempts,
        on_exhausted: FailurePolicy::PrefixLast(
            String::from_str("Failed to initiate phone call: "),
        ),
    }
}

/// The chat cascade on the normalized number `n`: the native chat URI
/// first, then the desktop application by name, then the browser
/// fallback; an exhausted cascade reports the last OS reason.
pub open spec fn chat_plan_shape(r: DispatchPlan, n: Seq<char>, platform: Platform) -> bool {
    match platform {
        Platform::MacOs => {
            &&& r.attempts.len() == 3
            &&& attempt_is(
                r.attempts[0],
                "open"@,
                seq![whatsapp_app_uri(n)],
                "WhatsApp opened with phone number"@,
            )
            &&& attempt_is(r.attempts[1], "open"@, seq!["-a"@, "WhatsApp"@], "WhatsApp Desktop opened"@)
            &&& attempt_is(r.attempts[2], "open"@, seq![whatsapp_web_url(n)], "WhatsApp Web opened"@)
            &&& r.on_exhausted matches FailurePolicy::PrefixLast(p) && p@
                == "Failed to open WhatsApp: "@
        },
        Platform::Windows => {
            &&& r.attempts.len() == 3
            &&& attempt_is(
                r.attempts[0],
                "cmd"@,
                seq!["/c"@, "start"@, ""@, whatsapp_app_uri(n)],
                "WhatsApp opened successfully"@,
            )
            &&& attempt_is(
                r.attempts[1],
                "cmd"@,
                seq!["/c"@, "start"@, ""@, "whatsapp:"@],
                "WhatsApp app opened"@,
            )
            &&& attempt_is(
                r.attempts[2],
                "cmd"@,
                seq!["/c"@, "start"@, ""@, whatsapp_web_url(n)],
                "WhatsApp Web opened"@,
            )
            &&& r.on_exhausted matches FailurePolicy::PrefixLast(p) && p@
                == "Failed to open WhatsApp: "@
        },
        Platform::Linux => {
            &&& r.attempts.len() == 3
            &&& attempt_is(
                r.attempts[0],
                "xdg-open"@,
                seq![whatsapp_app_uri(n)],
                "WhatsApp opened successfully"@,
            )
            &&& attempt_is(
                r.attempts[1],
                "whatsapp-desktop"@,
                Seq::<Seq<char>>::empty(),
                "WhatsApp app opened"@,
            )
            &&& attempt_is(r.attempts[2], "xdg-open"@, seq![whatsapp_web_url(n)], "WhatsApp Web opened"@)
            &&& r.on_exhausted matches FailurePolicy::PrefixLast(p) && p@
                == "Failed to open WhatsApp: "@
        },
    }
}

/// Plans the open-chat action: normalizes the number (decimal digits,
/// at least nine, default country prefix applied) and builds the
/// platform cascade; fewer than nine digits is rejected with
/// [`BackendError::InvalidPhoneNumber`] and no cascade at all.
pub fn chat_plan(phone: &str, platform: Platform) -> (r: Result<DispatchPlan, BackendError>)
    ensures
        match r {
            Result::Ok(plan) => digits_of(phone@).len() >= min_chat_digits() && chat_plan_shape(
                plan,
                prefixed_digits(digits_of(phone@)),
                platform,
            ),
            Result::Err(e) => digits_of(phone@).len() < min_chat_digits() && e
                == BackendError::InvalidPhoneNumber,
        },
{
    let normalized = match normalize_chat_phone(phone) {
        Result::Ok(n) => n,
        Result::Err(e) => {
            return Result::Err(e);
        },
    };
    let app_uri = whatsapp_app_target(normalized.as_str());
    let web_url = whatsapp_web_target(normalized.as_str());
    let mut attempts: Vec<Attempt> = Vec::new();
    match platform {
        Platform::MacOs => {
            attempts.push(attempt("open", args1(app_uri), "WhatsApp opened with phone number"));
            attempts.push(attempt(
                "open",
                args2(String::from_str("-a"), String::from_str("WhatsApp")),
                "WhatsApp Desktop opened",
            ));
            attempts.push(attempt("open", args1(web_url), "WhatsApp Web opened"));
        },
        Platform::Windows => {
            attempts.push(attempt(
                "cmd",
                args4(
                    String::from_str("/c"),
                    String::from_str("start"),
                    String::from_str(""),
                    app_uri,
                ),
                "WhatsApp opened successfully",
            ));
            attempts.push(attempt(
                "cmd",
                args4(
                    String::from_str("/c"),
                    String::from_str("start"),
                    String::from_str(""),
                    String::from_str("whatsapp:"),
                ),
                "WhatsApp app opened",
            ));
            attempts.push(attempt(
                "cmd",
                args4(
                    String::from_str("/c"),
                    String::from_str("start"),
                    String::from_str(""),
                    web_url,
                ),
                "WhatsApp Web opened",
            ));
        },
        Platform::Linux => {
            attempts.push(attempt("xdg-open", args1(app_uri), "WhatsApp opened successfully"));
            attempts.push(attempt("whatsapp-desktop", args0(), "WhatsApp app opened"));
            attempts.push(attempt("xdg-open", args1(web_url), "WhatsApp Web opened"));
        },
    }
    Result::Ok(
        DispatchPlan {
            attempts,
            on_exhausted: FailurePolicy::PrefixLast(String::from_str("Failed to open WhatsApp: ")),
        },
    )
}

// ---------------------------------------------------------------------
// Exhaustion
// ---------------------------------------------------------------------

/// The spawn failure reasons of an exhausted cascade, joined with ` and `.
pub open spec fn joined_errors(errs: Seq<Seq<char>>) -> Seq<char>
    decreases errs.len(),
{
    if errs.len() == 0 {
        Seq::empty()
    } else if errs.len() == 1 {
        errs[0]
    } else {
        joined_errors(errs.drop_last()) + " and "@ + errs.last()
    }
}

/// The message of an exhausted cascade under `policy`, given the spawn
/// failure reasons in cascade order.
pub open spec fn exhausted_message(policy: FailurePolicy, errs: Seq<Seq<char>>) -> Seq<char> {
    match policy {
        FailurePolicy::NoManager => "No supported file manager found"@,
        FailurePolicy::PrefixLast(p) => p@ + errs.last(),
        FailurePolicy::JoinAll(p) => p@ + joined_errors(errs),
    }
}

/// Decides the error of an exhausted cascade: `errors` holds one spawn
/// failure reason per attempt, in cascade order.
pub fn exhausted_error(policy: &FailurePolicy, errors: &Vec<String>) -> (r: BackendError)
    requires
        errors@.len() >= 1,
    ensures
        r.message_spec() == exhausted_message(*policy, errors.deep_view()),
        policy matches FailurePolicy::NoManager <==> r matches BackendError::NoFileManagerFound,
        !(policy matches FailurePolicy::NoManager) ==> (r matches BackendError::SpawnError(m)
            && m@ == exhausted_message(*policy, errors.deep_view())),
{
    match policy {
        FailurePolicy::NoManager => BackendError::NoFileManagerFound,
        FailurePolicy::PrefixLast(p) => {
            let mut m = p.clone();
            let last = errors[errors.len() - 1].clone();
            m.append(last.as_str());
            proof {
                assert(errors.deep_view().last() == errors@[errors@.len() - 1]@);
            }
            BackendError::SpawnError(m)
        },
        FailurePolicy::JoinAll(p) => {
            let mut joined = errors[0].clone();
            proof {
                assert(errors.deep_view().subrange(0, 1) =~= seq![errors@[0]@]);
            }
            let mut i: usize = 1;
            while i < errors.len()
                invariant
                    1 <= i <= errors@.len(),
                    joined@ == joined_errors(errors.deep_view().subrange(0, i as int)),
                decreases errors@.len() - i,
            {
                joined.append(" and ");
                let next = errors[i].clone();
                joined.append(next.as_str());
                proof {
                    let dv = errors.deep_view();
                    let cur = dv.subrange(0, i + 1 as int);
                    assert(cur.drop_last() =~= dv.subrange(0, i as int));
                    assert(cur.last() == dv[i as int]);
                }
                i = i + 1;
            }
            proof {
                assert(errors.deep_view().subrange(0, errors@.len() as int) =~= errors.deep_view());
            }
            let mut m = p.clone();
            m.append(joined.as_str());
            BackendError::SpawnError(m)
        },
    }
}

/// Law: when every launcher in a cascade fails and the cascade does not
/// fall back to [`BackendError::NoFileManagerFound`], the reported
/// message ends with the last spawn failure's OS reason verbatim.
pub proof fn lemma_spawn_failure_surfaced(policy: FailurePolicy, errs: Seq<Seq<char>>)
    requires
        errs.len() >= 1,
        !(policy matches FailurePolicy::NoManager),
    ensures
        ({
            let m = exhausted_message(policy, errs);
            let e = errs.last();
            m.len() >= e.len() && m.subrange(m.len() - e.len(), m.len() as int) == e
        }),
{
    let m = exhausted_message(policy, errs);
    let e = errs.last();
    match policy {
        FailurePolicy::NoManager => {},
        FailurePolicy::PrefixLast(p) => {
            assert(m.subrange(m.len() - e.len(), m.len() as int) =~= e);
        },
        FailurePolicy::JoinAll(p) => {
            if errs.len() == 1 {
                assert(joined_errors(errs) == e);
            }
            assert(m.subrange(m.len() - e.len(), m.len() as int) =~= e);
        },
    }
}

/// Law: for every path and platform, an exhausted open-folder cascade
/// is reported as a spawn error — never the file-manager fallback —
/// and its message ends with the last spawn failure's OS reason
/// verbatim.
pub proof fn lemma_open_folder_failure_surfaced(
    r: DispatchPlan,
    path: Seq<char>,
    platform: Platform,
    errs: Seq<Seq<char>>,
)
    requires
        open_folder_plan_shape(r, path, platform),
        errs.len() >= 1,
    ensures
        !(r.on_exhausted matches FailurePolicy::NoManager),
        ({
            let m = exhausted_message(r.on_exhausted, errs);
            let e = errs.last();
            m.len() >= e.len() && m.subrange(m.len() - e.len(), m.len() as int) == e
        }),
{
    lemma_spawn_failure_surfaced(r.on_exhausted, errs);
}

/// The joined reasons contain each single reason as a contiguous run,
/// at the offset returned.
proof fn lemma_joined_contains_each(errs: Seq<Seq<char>>, i: int) -> (j: int)
    requires
        0 <= i < errs.len(),
    ensures
        0 <= j,
        j + errs[i].len() <= joined_errors(errs).len(),
        joined_errors(errs).subrange(j, j + errs[i].len()) == errs[i],
    decreases errs.len(),
{
    let m = joined_errors(errs);
    if i == errs.len() - 1 {
        if errs.len() == 1 {
            assert(m.subrange(0, 0 + errs[i].len() as int) =~= errs[i]);
            0
        } else {
            let j = m.len() - errs[i].len();
            assert(m.subrange(j, j + errs[i].len()) =~= errs[i]);
            j
        }
    } else {
        let j = lemma_joined_contains_each(errs.drop_last(), i);
        let prior = joined_errors(errs.drop_last());
        assert(errs.drop_last()[i] == errs[i]);
        assert(m.subrange(j, j + errs[i].len()) =~= prior.subrange(j, j + errs[i].len()));
        j
    }
}

/// Law: when an exhausted cascade joins its reasons, the reported
/// message carries every spawn failure's OS reason verbatim, as a
/// contiguous run at the offset returned.
pub proof fn lemma_all_reasons_surfaced(prefix: String, errs: Seq<Seq<char>>, i: int) -> (j: int)
    requires
        0 <= i < errs.len(),
    ensures
        0 <= j,
        j + errs[i].len() <= exhausted_message(FailurePolicy::JoinAll(prefix), errs).len(),
        exhausted_message(FailurePolicy::JoinAll(prefix), errs).subrange(j, j + errs[i].len())
            == errs[i],
{
    let j0 = lemma_joined_contains_each(errs, i);
    let jm = joined_errors(errs);
    let m = exhausted_message(FailurePolicy::JoinAll(prefix), errs);
    let j = prefix@.len() + j0;
    assert(m.subrange(j, j + errs[i].len()) =~= jm.subrange(j0, j0 + errs[i].len()));
    j
}

// ---------------------------------------------------------------------
// Folder picker
// ---------------------------------------------------------------------

/// The native folder-picker command of each platform: a scripting shim
/// that prints the chosen directory on its standard output.
pub open spec fn picker_command_shape(prog: Seq<char>, args: Seq<Seq<char>>, platform: Platform) -> bool {
    match platform {
        Platform::MacOs => prog == "osascript"@ && args == seq![
            "-e"@,
            "POSIX path of (choose folder)"@,
        ],
        Platform::Windows => prog == "powershell"@ && args == seq![
            "-NoProfile"@,
            "-Command"@,
            "(New-Object -ComObject Shell.Application).BrowseForFolder(0,'Select folder',0).Self.Path"@,
        ],
        Platform::Linux => prog == "zenity"@ && args == seq!["--file-selection"@, "--directory"@],
    }
}

/// The folder-picker invocation for `platform`: program and arguments.
pub fn folder_picker_command(platform: Platform) -> (r: (String, Vec<String>))
    ensures
        picker_command_shape(r.0@, r.1.deep_view(), platform),
{
    match platform {
        Platform::MacOs => (
            String::from_str("osascript"),
            args2(String::from_str("-e"), String::from_str("POSIX path of (choose folder)")),
        ),
        Platform::Windows => (
            String::from_str("powershell"),
            args3(
                String::from_str("-NoProfile"),
                String::from_str("-Command"),
                String::from_str(
                    "(New-Object -ComObject Shell.Application).BrowseForFolder(0,'Select folder',0).Self.Path",
                ),
            ),
        ),
        Platform::Linux => (
            String::from_str("zenity"),
            args2(String::from_str("--file-selection"), String::from_str("--directory")),
        ),
    }
}

/// Decides the folder-picker result from the shim's exit status and
/// standard output: a non-zero exit or an output that is blank after
/// trimming means the user canceled; otherwise the trimmed single line
/// is the chosen path.
pub fn folder_picker_outcome(exit_ok: bool, output: &str) -> (r: Result<String, BackendError>)
    ensures
        match r {
            Result::Ok(p) => exit_ok && crate::text::trimmed(output@).len() > 0 && p@
                == crate::text::trimmed(output@),
            Result::Err(e) => (!exit_ok || crate::text::trimmed(output@).len() == 0) && e
                == BackendError::UserCanceled,
        },
{
    let t = crate::text::trim_spaces(output);
    if !exit_ok || t.as_str().unicode_len() == 0 {
        Result::Err(BackendError::UserCanceled)
    } else {
        Result::Ok(t)
    }
}

} // verus!
