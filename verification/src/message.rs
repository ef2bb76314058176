//! Message composition: placeholder substitution over the configured
//! templates, and the builder that turns one probe or login cycle's outcome
//! into the three texts of a [`crate::status::MessageResult`].
//!
//! Substitution replaces the placeholders `%1` to `%4`, flattens newlines
//! for log-bound text, collapses every run of blanks to one character (a
//! newline when the run held one), and trims — so fields that are empty for
//! this cycle leave no stray spacing behind.

use vstd::prelude::*;
use crate::config::{ConfigData, MessageConfig};
use crate::numfmt::{centi_chars, push_centi_chars};
use crate::status::{campus_message_spec, wan_message_spec, CampusNetworkStatus, MessageResult, WanStatus};
use crate::text::{
    chars_vec, collapse_blanks, collapse_ws, contains_seq, flatten_newlines, flatten_nl,
    lemma_collapse_no_newline, lemma_flatten_properties, lemma_normalize_idempotent,
    lemma_replace_absent, lemma_trim_no_newline, push_all, replace_all, replace_seq,
    string_from_chars, trim_seq, trim_ws,
};

verus! {

/// `t` with the four placeholders replaced, in order, by the four field
/// texts.
pub open spec fn substituted(
    t: Seq<char>,
    campus: Seq<char>,
    wan: Seq<char>,
    time: Seq<char>,
    flow: Seq<char>,
) -> Seq<char> {
    replace_seq(
        replace_seq(replace_seq(replace_seq(t, "%1"@, campus), "%2"@, wan), "%3"@, time),
        "%4"@,
        flow,
    )
}

/// The fully composed text: placeholders substituted, newlines flattened to
/// spaces when the target keeps to one line, blank runs collapsed, ends
/// trimmed.
pub open spec fn composed_text(
    t: Seq<char>,
    campus: Seq<char>,
    wan: Seq<char>,
    time: Seq<char>,
    flow: Seq<char>,
    allow_newlines: bool,
) -> Seq<char> {
    let s = substituted(t, campus, wan, time, flow);
    let s2 = if allow_newlines {
        s
    } else {
        flatten_newlines(s)
    };
    trim_seq(collapse_blanks(s2))
}

/// Substitute the four fields into `template` and normalise the result.
pub fn substitute_chars(
    template: &Vec<char>,
    campus: &Vec<char>,
    wan: &Vec<char>,
    time: &Vec<char>,
    flow: &Vec<char>,
    allow_newlines: bool,
) -> (r: Vec<char>)
    ensures
        r@ == composed_text(template@, campus@, wan@, time@, flow@, allow_newlines),
{
    proof {
        reveal_strlit("%1");
        reveal_strlit("%2");
        reveal_strlit("%3");
        reveal_strlit("%4");
    }
    let p1 = chars_vec("%1");
    let p2 = chars_vec("%2");
    let p3 = chars_vec("%3");
    let p4 = chars_vec("%4");
    let s = replace_all(
        &replace_all(&replace_all(&replace_all(template, &p1, campus), &p2, wan), &p3, time),
        &p4,
        flow,
    );
    let s2 = if allow_newlines {
        s
    } else {
        flatten_nl(&s)
    };
    trim_ws(&collapse_ws(&s2))
}

/// `s` holds none of the four placeholders.
pub open spec fn placeholder_free(s: Seq<char>) -> bool {
    &&& !contains_seq(s, "%1"@)
    &&& !contains_seq(s, "%2"@)
    &&& !contains_seq(s, "%3"@)
    &&& !contains_seq(s, "%4"@)
}

/// Substitution is idempotent on its own output: composing an already
/// composed text again, with the same fields and target, yields the same
/// text, provided no placeholder is left in it.
pub proof fn lemma_substitution_idempotent(
    t: Seq<char>,
    campus: Seq<char>,
    wan: Seq<char>,
    time: Seq<char>,
    flow: Seq<char>,
    allow_newlines: bool,
)
    requires
        placeholder_free(composed_text(t, campus, wan, time, flow, allow_newlines)),
    ensures
        composed_text(
            composed_text(t, campus, wan, time, flow, allow_newlines),
            campus,
            wan,
            time,
            flow,
            allow_newlines,
        ) == composed_text(t, campus, wan, time, flow, allow_newlines),
{
    let s = substituted(t, campus, wan, time, flow);
    let s2 = if allow_newlines {
        s
    } else {
        flatten_newlines(s)
    };
    let r = trim_seq(collapse_blanks(s2));
    lemma_replace_absent(r, "%1"@, campus);
    lemma_replace_absent(r, "%2"@, wan);
    lemma_replace_absent(r, "%3"@, time);
    lemma_replace_absent(r, "%4"@, flow);
    assert(substituted(r, campus, wan, time, flow) == r);
    if !allow_newlines {
        lemma_flatten_properties(s);
        lemma_collapse_no_newline(s2);
        lemma_trim_no_newline(collapse_blanks(s2));
        lemma_flatten_properties(r);
        assert(flatten_newlines(r) == r);
    }
    lemma_normalize_idempotent(s2);
}

/// The elapsed-time text: the duration in seconds with two decimals.
pub open spec fn elapsed_text_spec(centis: nat) -> Seq<char> {
    "用时"@ + centi_chars(centis) + "秒"@
}

/// Render the elapsed-time text for a duration in hundredths of a second.
pub fn elapsed_text(centis: u64) -> (r: Vec<char>)
    ensures
        r@ == elapsed_text_spec(centis as nat),
{
    let mut out = chars_vec("用时");
    push_centi_chars(centis, &mut out);
    let tail = chars_vec("秒");
    push_all(&mut out, &tail);
    assert(out@ =~= elapsed_text_spec(centis as nat));
    out
}

/// The quota text for a remaining amount in hundredths of a megabyte: an
/// exhausted quota has its own wording, a gigabyte or more is shown in
/// gigabytes rounded to two decimals, anything else in megabytes.
pub open spec fn flow_info_spec(centi_mb: nat) -> Seq<char> {
    if centi_mb == 0 {
        "流量耗尽，限速不限量生效"@
    } else if centi_mb >= 102400 {
        "剩余流量"@ + centi_chars(((centi_mb + 512) / 1024) as nat) + "GB"@
    } else {
        "剩余流量"@ + centi_chars(centi_mb) + "MB"@
    }
}

/// Render the remaining-quota text for an amount in hundredths of a
/// megabyte.
pub fn format_flow_info(centi_mb: u64) -> (r: Vec<char>)
    ensures
        r@ == flow_info_spec(centi_mb as nat),
{
    if centi_mb == 0 {
        chars_vec("流量耗尽，限速不限量生效")
    } else if centi_mb >= 102400 {
        let mut out = chars_vec("剩余流量");
        let gb_centi = (((centi_mb as u128) + 512) / 1024) as u64;
        assert(gb_centi == ((centi_mb + 512) / 1024) as u64);
        push_centi_chars(gb_centi, &mut out);
        let tail = chars_vec("GB");
        push_all(&mut out, &tail);
        assert(out@ =~= flow_info_spec(centi_mb as nat));
        out
    } else {
        let mut out = chars_vec("剩余流量");
        push_centi_chars(centi_mb, &mut out);
        let tail = chars_vec("MB");
        push_all(&mut out, &tail);
        assert(out@ =~= flow_info_spec(centi_mb as nat));
        out
    }
}

/// Builder that gathers one cycle's outcome fields and composes the three
/// message texts from the configured templates.
pub struct MessageBuilder {
    /// Campus status of this cycle, when known.
    pub campus_status: Option<CampusNetworkStatus>,
    /// Wide-area status of this cycle, when known.
    pub wan_status: Option<WanStatus>,
    /// Elapsed time in hundredths of a second, when measured.
    pub elapsed_centis: Option<u64>,
    /// Pre-rendered quota text, when fetched.
    pub flow_info: Option<String>,
    /// Provider of the account; the empty string means the campus network.
    pub isp: String,
}

/// The campus field text the builder substitutes for `%1`.
pub open spec fn builder_campus_text(b: MessageBuilder) -> Seq<char> {
    match b.campus_status {
        Some(s) => campus_message_spec(s),
        None => Seq::empty(),
    }
}

/// The wide-area field text the builder substitutes for `%2`; a failed or
/// skipped check shows nothing.
pub open spec fn builder_wan_text(b: MessageBuilder) -> Seq<char> {
    match b.wan_status {
        Some(s) => if s == WanStatus::CheckFailed {
            Seq::empty()
        } else {
            wan_message_spec(s)
        },
        None => Seq::empty(),
    }
}

/// The elapsed field text the builder substitutes for `%3`.
pub open spec fn builder_time_text(b: MessageBuilder) -> Seq<char> {
    match b.elapsed_centis {
        Some(c) => elapsed_text_spec(c as nat),
        None => Seq::empty(),
    }
}

/// The quota field text the builder substitutes for `%4`; only the campus
/// provider has a quota to show.
pub open spec fn builder_flow_text(b: MessageBuilder) -> Seq<char> {
    if b.isp@.len() == 0 {
        match b.flow_info {
            Some(f) => f@,
            None => Seq::empty(),
        }
    } else {
        Seq::empty()
    }
}

impl MessageBuilder {
    /// A builder with no fields set, for the given provider.
    pub fn new(isp: String) -> (r: Self)
        ensures
            r.campus_status is None,
            r.wan_status is None,
            r.elapsed_centis is None,
            r.flow_info is None,
            r.isp == isp,
    {
        MessageBuilder {
            campus_status: None,
            wan_status: None,
            elapsed_centis: None,
            flow_info: None,
            isp,
        }
    }

    /// Set the campus status field.
    pub fn with_campus_status(self, status: CampusNetworkStatus) -> (r: Self)
        ensures
            r == (MessageBuilder { campus_status: Some(status), ..self }),
    {
        MessageBuilder { campus_status: Some(status), ..self }
    }

    /// Set the wide-area status field.
    pub fn with_wan_status(self, status: WanStatus) -> (r: Self)
        ensures
            r == (MessageBuilder { wan_status: Some(status), ..self }),
    {
        MessageBuilder { wan_status: Some(status), ..self }
    }

    /// Set the elapsed time, in hundredths of a second.
    pub fn with_elapsed_time(self, centis: u64) -> (r: Self)
        ensures
            r == (MessageBuilder { elapsed_centis: Some(centis), ..self }),
    {
        MessageBuilder { elapsed_centis: Some(centis), ..self }
    }

    /// Set the remaining quota, in hundredths of a megabyte.
    pub fn with_flow_info(self, centi_mb: u64) -> (r: Self)
        ensures
            r.campus_status == self.campus_status,
            r.wan_status == self.wan_status,
            r.elapsed_centis == self.elapsed_centis,
            r.isp == self.isp,
            r.flow_info matches Some(f) && f@ == flow_info_spec(centi_mb as nat),
    {
        let rendered = format_flow_info(centi_mb);
        MessageBuilder { flow_info: Some(string_from_chars(&rendered)), ..self }
    }

    /// Substitute the four fields into one template.
    ///
    /// `allow_newlines` is false for log-bound text, whose newlines become
    /// spaces so that a log line stays a single line.
    pub fn replace_placeholders(
        template: &str,
        campus: &str,
        wan: &str,
        time: &str,
        flow: &str,
        allow_newlines: bool,
    ) -> (r: String)
        ensures
            r@ == composed_text(template@, campus@, wan@, time@, flow@, allow_newlines),
    {
        let t = chars_vec(template);
        let c = chars_vec(campus);
        let w = chars_vec(wan);
        let ti = chars_vec(time);
        let f = chars_vec(flow);
        let out = substitute_chars(&t, &c, &w, &ti, &f, allow_newlines);
        string_from_chars(&out)
    }

    /// Compose the three message texts from the configured templates.
    pub fn build(self, config: &MessageConfig) -> (r: MessageResult)
        ensures
            r.notify_message@ == composed_text(
                config.notify_text@,
                builder_campus_text(self),
                builder_wan_text(self),
                builder_time_text(self),
                builder_flow_text(self),
                true,
            ),
            r.gui_message@ == composed_text(
                config.gui_text@,
                builder_campus_text(self),
                builder_wan_text(self),
                builder_time_text(self),
                builder_flow_text(self),
                true,
            ),
            r.log_message@ == composed_text(
                config.log_text@,
                builder_campus_text(self),
                builder_wan_text(self),
                builder_time_text(self),
                builder_flow_text(self),
                false,
            ),
    {
        let campus = match &self.campus_status {
            Some(s) => chars_vec(s.to_message().as_str()),
            None => Vec::new(),
        };
        let wan = match &self.wan_status {
            Some(s) => {
                if *s == WanStatus::CheckFailed {
                    Vec::new()
                } else {
                    chars_vec(s.to_message().as_str())
                }
            },
            None => Vec::new(),
        };
        let time = match self.elapsed_centis {
            Some(c) => elapsed_text(c),
            None => Vec::new(),
        };
        let flow = if self.isp.as_str().is_empty() {
            match &self.flow_info {
                Some(f) => chars_vec(f.as_str()),
                None => Vec::new(),
            }
        } else {
            Vec::new()
        };
        proof {
            assert(campus@ =~= builder_campus_text(self));
            assert(wan@ =~= builder_wan_text(self));
            assert(time@ =~= builder_time_text(self));
            assert(flow@ =~= builder_flow_text(self));
        }
        let nt = chars_vec(config.notify_text.as_str());
        let gt = chars_vec(config.gui_text.as_str());
        let lt = chars_vec(config.log_text.as_str());
        let notify = substitute_chars(&nt, &campus, &wan, &time, &flow, true);
        let gui = substitute_chars(&gt, &campus, &wan, &time, &flow, true);
        let log = substitute_chars(&lt, &campus, &wan, &time, &flow, false);
        MessageResult {
            notify_message: string_from_chars(&notify),
            gui_message: string_from_chars(&gui),
            log_message: string_from_chars(&log),
        }
    }
}

/// Severity of a log line.
#[derive(Debug, Clone, Copy, PartialEq, Eq, Structural)]
pub enum LogLevel {
    /// An ordinary event.
    Info,
    /// A failure the flow worked around.
    Warning,
    /// A failure the flow reports.
    Error,
}

/// The label a log level writes.
pub open spec fn log_level_label(l: LogLevel) -> Seq<char> {
    match l {
        LogLevel::Info => "INFO"@,
        LogLevel::Warning => "WARNING"@,
        LogLevel::Error => "ERROR"@,
    }
}

impl LogLevel {
    /// The label this level writes.
    pub fn label(&self) -> (r: String)
        ensures
            r@ == log_level_label(*self),
    {
        match self {
            LogLevel::Info => String::from_str("INFO"),
            LogLevel::Warning => String::from_str("WARNING"),
            LogLevel::Error => String::from_str("ERROR"),
        }
    }
}

/// What one cycle asks its caller to do: show this text, write that log
/// line, raise that notification. The caller performs the writes; failures
/// there are swallowed and never fail the cycle.
#[derive(Debug, Clone)]
pub struct EmitPlan {
    /// Text for the user interface.
    pub gui_message: String,
    /// The log line's text, when one is owed.
    pub log_line: Option<String>,
    /// Severity of the owed log line.
    pub log_level: LogLevel,
    /// The notification's text, when one is owed.
    pub notification: Option<String>,
}

/// The wide-area field text a cycle displays: a failed or skipped check
/// shows nothing.
pub open spec fn status_wan_text(w: WanStatus) -> Seq<char> {
    if w == WanStatus::CheckFailed {
        Seq::empty()
    } else {
        wan_message_spec(w)
    }
}

/// The quota field text a cycle displays: only the campus provider has a
/// quota, and only when one was fetched.
pub open spec fn status_flow_text(isp: Seq<char>, flow_centi_mb: Option<u64>) -> Seq<char> {
    if isp.len() == 0 {
        match flow_centi_mb {
            Some(f) => flow_info_spec(f as nat),
            None => Seq::empty(),
        }
    } else {
        Seq::empty()
    }
}

/// One cycle's composed text for a given template.
pub open spec fn cycle_text(
    template: Seq<char>,
    campus: CampusNetworkStatus,
    wan: WanStatus,
    elapsed_centis: u64,
    isp: Seq<char>,
    flow_centi_mb: Option<u64>,
    allow_newlines: bool,
) -> Seq<char> {
    composed_text(
        template,
        campus_message_spec(campus),
        status_wan_text(wan),
        elapsed_text_spec(elapsed_centis as nat),
        status_flow_text(isp, flow_centi_mb),
        allow_newlines,
    )
}

/// The fallback text when no configuration is loaded: the two status texts,
/// space-separated.
pub open spec fn bare_status_text(campus: CampusNetworkStatus, wan: WanStatus) -> Seq<char> {
    campus_message_spec(campus) + " "@ + wan_message_spec(wan)
}

/// Composes messages for finished cycles against the loaded configuration,
/// and says which log line and notification each cycle owes.
#[derive(Debug, Clone)]
pub struct MessageCenter {
    /// The loaded configuration; without one, only bare status texts are
    /// composed and nothing is logged or notified.
    pub config: Option<ConfigData>,
}

impl MessageCenter {
    /// A message centre over the given configuration.
    pub fn new(config: Option<ConfigData>) -> (r: Self)
        ensures
            r.config == config,
    {
        MessageCenter { config }
    }

    fn compose_cycle(
        config: &ConfigData,
        campus: CampusNetworkStatus,
        wan: WanStatus,
        elapsed_centis: u64,
        flow_centi_mb: Option<u64>,
    ) -> (r: MessageResult)
        ensures
            r.notify_message@ == cycle_text(
                config.message.notify_text@,
                campus,
                wan,
                elapsed_centis,
                config.account.isp@,
                flow_centi_mb,
                true,
            ),
            r.gui_message@ == cycle_text(
                config.message.gui_text@,
                campus,
                wan,
                elapsed_centis,
                config.account.isp@,
                flow_centi_mb,
                true,
            ),
            r.log_message@ == cycle_text(
                config.message.log_text@,
                campus,
                wan,
                elapsed_centis,
                config.account.isp@,
                flow_centi_mb,
                false,
            ),
    {
        let mut builder = MessageBuilder::new(config.account.isp.clone()).with_campus_status(
            campus,
        ).with_wan_status(wan).with_elapsed_time(elapsed_centis);
        match flow_centi_mb {
            Some(f) => {
                builder = builder.with_flow_info(f);
            },
            None => {
            },
        }
        let ghost b = builder;
        proof {
            assert(builder_campus_text(b) =~= campus_message_spec(campus));
            assert(builder_wan_text(b) =~= status_wan_text(wan));
            assert(builder_time_text(b) =~= elapsed_text_spec(elapsed_centis as nat));
            assert(builder_flow_text(b) =~= status_flow_text(config.account.isp@, flow_centi_mb));
        }
        builder.build(&config.message)
    }

    /// Compose the outcome of a status check. A log line is owed only when
    /// `should_log`, a notification only when `show_notification`, and
    /// neither without a configuration.
    pub fn handle_network_status(
        &self,
        campus_status: CampusNetworkStatus,
        wan_status: WanStatus,
        elapsed_centis: u64,
        show_notification: bool,
        should_log: bool,
        flow_centi_mb: Option<u64>,
    ) -> (r: EmitPlan)
        ensures
            r.log_level == LogLevel::Info,
            self.config is None ==> r.gui_message@ == bare_status_text(campus_status, wan_status)
                && r.log_line is None && r.notification is None,
            self.config matches Some(c) ==> {
                &&& r.gui_message@ == cycle_text(
                    c.message.gui_text@,
                    campus_status,
                    wan_status,
                    elapsed_centis,
                    c.account.isp@,
                    flow_centi_mb,
                    true,
                )
                &&& (should_log ==> (r.log_line matches Some(l) && l@ == cycle_text(
                    c.message.log_text@,
                    campus_status,
                    wan_status,
                    elapsed_centis,
                    c.account.isp@,
                    flow_centi_mb,
                    false,
                )))
                &&& (!should_log ==> r.log_line is None)
                &&& (show_notification ==> (r.notification matches Some(n) && n@ == cycle_text(
                    c.message.notify_text@,
                    campus_status,
                    wan_status,
                    elapsed_centis,
                    c.account.isp@,
                    flow_centi_mb,
                    true,
                )))
                &&& (!show_notification ==> r.notification is None)
            },
    {
        match &self.config {
            None => EmitPlan {
                gui_message: campus_status.to_message().concat(" ").concat(
                    wan_status.to_message().as_str(),
                ),
                log_line: None,
                log_level: LogLevel::Info,
                notification: None,
            },
            Some(config) => {
                let result = Self::compose_cycle(
                    config,
                    campus_status,
                    wan_status,
                    elapsed_centis,
                    flow_centi_mb,
                );
                EmitPlan {
                    gui_message: result.gui_message,
                    log_line: if should_log {
                        Some(result.log_message)
                    } else {
                        None
                    },
                    log_level: LogLevel::Info,
                    notification: if show_notification {
                        Some(result.notify_message)
                    } else {
                        None
                    },
                }
            },
        }
    }

    /// Compose the outcome of a login attempt. With a configuration, a log
    /// line and a notification are always owed; the line's severity follows
    /// the attempt's success.
    pub fn handle_login_result(
        &self,
        campus_status: CampusNetworkStatus,
        wan_status: WanStatus,
        elapsed_centis: u64,
        success: bool,
        flow_centi_mb: Option<u64>,
    ) -> (r: EmitPlan)
        ensures
            r.log_level == (if success {
                LogLevel::Info
            } else {
                LogLevel::Error
            }),
            self.config is None ==> r.gui_message@ == bare_status_text(campus_status, wan_status)
                && r.log_line is None && r.notification is None,
            self.config matches Some(c) ==> {
                &&& r.gui_message@ == cycle_text(
                    c.message.gui_text@,
                    campus_status,
                    wan_status,
                    elapsed_centis,
                    c.account.isp@,
                    flow_centi_mb,
                    true,
                )
                &&& (r.log_line matches Some(l) && l@ == cycle_text(
                    c.message.log_text@,
                    campus_status,
                    wan_status,
                    elapsed_centis,
                    c.account.isp@,
                    flow_centi_mb,
                    false,
                ))
                &&& (r.notification matches Some(n) && n@ == cycle_text(
                    c.message.notify_text@,
                    campus_status,
                    wan_status,
                    elapsed_centis,
                    c.account.isp@,
                    flow_centi_mb,
                    true,
                ))
            },
    {
        let level = if success {
            LogLevel::Info
        } else {
            LogLevel::Error
        };
        match &self.config {
            None => EmitPlan {
                gui_message: campus_status.to_message().concat(" ").concat(
                    wan_status.to_message().as_str(),
                ),
                log_line: None,
                log_level: level,
                notification: None,
            },
            Some(config) => {
                let result = Self::compose_cycle(
                    config,
                    campus_status,
                    wan_status,
                    elapsed_centis,
                    flow_centi_mb,
                );
                EmitPlan {
                    gui_message: result.gui_message,
                    log_line: Some(result.log_message),
                    log_level: level,
                    notification: Some(result.notify_message),
                }
            },
        }
    }
}

} // verus!
