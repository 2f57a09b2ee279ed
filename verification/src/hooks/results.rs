//! The hook that reports the results of a run.

use crate::hooks::iface::{Hook, HookType};
use crate::models::app_state::{texts, Results};
use crate::models::config::{pair_texts, S3Config, WebhookConfig};
use crate::text::{decimal, decimal_string, replace_text, replaced, signed_decimal,
    signed_decimal_string};
use crate::utils::time::{display_utc, format_utc, utc_display, utc_formatted, ISO_FORMAT};
use crate::utils::variables::{filled, Fill, VariablesUtils};
use vstd::prelude::*;
use vstd::string::*;

verus! {

/// The texts `lines`, with a line feed between each two.
pub open spec fn joined_lines(lines: Seq<Seq<char>>) -> Seq<char>
    decreases lines.len(),
{
    if lines.len() == 0 {
        Seq::empty()
    } else if lines.len() == 1 {
        lines[0]
    } else {
        joined_lines(lines.drop_last()) + "\n"@ + lines.last()
    }
}

/// A point in time as it stands in a message: as `chrono` displays it, or
/// the number of seconds when it is out of range.
pub open spec fn time_text(secs: i64) -> Seq<char> {
    match utc_display(secs) {
        Some(t) => t,
        None => signed_decimal(secs as int),
    }
}

/// A point in time as it stands in the data of a template.
pub open spec fn iso_text(secs: i64) -> Seq<char> {
    match utc_formatted(secs, ISO_FORMAT@) {
        Some(t) => t,
        None => signed_decimal(secs as int),
    }
}

/// Whether the run failed: a test failed or an error was recorded.
pub open spec fn run_failed(results: Results) -> bool {
    results.failed > 0 || results.error@.len() > 0
}

/// The message that is sent when the webhook has no template.
pub open spec fn default_message(results: Results, logs_url: Seq<char>) -> Seq<char> {
    "Test Run Completed:\n\u{2705} Passed: "@ + decimal(results.passed as nat)
        + "\n\u{274c} Failed: "@ + decimal(results.failed as nat) + "\n\u{1f4cb} Total: "@ + decimal(
        results.total as nat,
    ) + "\nStart Time: "@ + time_text(results.start_time) + "\nEnd Time: "@ + time_text(
        results.end_time,
    ) + "\nLogs: "@ + logs_url + "\nErrors: "@ + joined_lines(texts(results.error@))
}

/// What a template can refer to.
pub open spec fn template_data(results: Results, logs_url: Seq<char>) -> Seq<(Seq<char>, Seq<char>)> {
    seq![
        ("start_time"@, iso_text(results.start_time)),
        ("end_time"@, iso_text(results.end_time)),
        ("full_log"@, results.full_log@),
        ("error"@, Seq::empty()),
        ("logs_url"@, logs_url),
        ("errors"@, joined_lines(texts(results.error@))),
        ("passed"@, decimal(results.passed as nat)),
        ("failed"@, decimal(results.failed as nat)),
        ("total"@, decimal(results.total as nat)),
        (
            "status"@,
            if run_failed(results) {
                "Failed"@
            } else {
                "Passed"@
            },
        ),
        (
            "status_icon"@,
            if run_failed(results) {
                "\u{274c}"@
            } else {
                "\u{2705}"@
            },
        ),
    ]
}

/// The message that is sent to the webhook.
pub open spec fn message_for(config: WebhookConfig, results: Results, logs_url: Seq<char>) -> Seq<
    char,
> {
    if config.message_template@.len() > 0 {
        filled(
            config.message_template@,
            Fill::Values { extra: Seq::empty(), vars: template_data(results, logs_url) },
        )
    } else {
        default_message(results, logs_url)
    }
}

/// The key under which the log of a run is stored.
pub open spec fn log_key(key_prefix: Seq<char>, start_time: i64) -> Seq<char> {
    replaced(key_prefix + "results_"@ + time_text(start_time) + ".txt"@, " "@, "_"@)
}

/// The address under which the stored log can be read.
pub open spec fn log_url(bucket: Seq<char>, key: Seq<char>) -> Seq<char> {
    "https://"@ + bucket + ".s3.amazonaws.com/"@ + key
}

/// Where the log of a run goes.
#[derive(Clone, Debug, PartialEq, Eq)]
pub struct LogUpload {
    pub bucket: String,
    pub key: String,
    pub url: String,
}

/// Sends the results to a webhook.
#[derive(Clone, Debug, PartialEq, Eq)]
pub struct HookResults {
    pub config: WebhookConfig,
}

impl HookResults {
    pub fn new(config: WebhookConfig) -> (hook: Self)
        ensures
            hook.config == config,
            hook.phase() == HookType::Finished,
            hook.tolerant(),
    {
        HookResults { config }
    }

    /// Whether the webhook is called at all: not when it has no address.
    pub fn call_webhook(&self) -> (call: bool)
        ensures
            call == (self.config.url@.len() > 0),
    {
        self.config.url.as_str().unicode_len() > 0
    }

    fn join_lines(lines: &Vec<String>) -> (out: String)
        ensures
            out@ == joined_lines(texts(lines@)),
    {
        let mut out = String::new();
        let mut i: usize = 0;
        assert(texts(lines@).take(0) =~= Seq::empty());
        while i < lines.len()
            invariant
                i <= lines.len(),
                out@ == joined_lines(texts(lines@).take(i as int)),
            decreases lines.len() - i,
        {
            let ghost upto = texts(lines@).take(i + 1);
            proof {
                assert(upto.drop_last() =~= texts(lines@).take(i as int));
                assert(upto.last() == lines@[i as int]@);
                reveal_strlit("\n");
            }
            if i > 0 {
                out.append("\n");
            } else {
                assert(upto =~= seq![lines@[0]@]);
                assert(Seq::<char>::empty() + lines@[0]@ =~= lines@[0]@);
            }
            out.append(lines[i].as_str());
            i += 1;
        }
        assert(texts(lines@).take(lines@.len() as int) =~= texts(lines@));
        out
    }

    fn time(secs: i64) -> (out: String)
        ensures
            out@ == time_text(secs),
    {
        match display_utc(secs) {
            Some(t) => t,
            None => signed_decimal_string(secs),
        }
    }

    fn iso(secs: i64) -> (out: String)
        ensures
            out@ == iso_text(secs),
    {
        match format_utc(secs, ISO_FORMAT) {
            Some(t) => t,
            None => signed_decimal_string(secs),
        }
    }

    fn pair(key: &str, value: String) -> (p: (String, String))
        ensures
            p.0@ == key@,
            p.1@ == value@,
    {
        (String::from_str(key), value)
    }

    /// The message that is sent to the webhook: the template with its
    /// placeholders filled, or a summary of the run if there is none.
    pub fn get_message(&self, results: &Results, logs_url: &str) -> (message: String)
        ensures
            message@ == message_for(self.config, *results, logs_url@),
    {
        let errors = Self::join_lines(&results.error);
        if self.config.message_template.as_str().unicode_len() > 0 {
            let failed: bool = results.failed > 0 || results.error.len() > 0;
            let mut data: Vec<(String, String)> = Vec::new();
            data.push(Self::pair("start_time", Self::iso(results.start_time)));
            data.push(Self::pair("end_time", Self::iso(results.end_time)));
            data.push(Self::pair("full_log", results.full_log.clone()));
            data.push(Self::pair("error", String::new()));
            data.push(Self::pair("logs_url", String::from_str(logs_url)));
            data.push(Self::pair("errors", errors));
            data.push(Self::pair("passed", decimal_string(results.passed)));
            data.push(Self::pair("failed", decimal_string(results.failed)));
            data.push(Self::pair("total", decimal_string(results.total)));
            data.push(
                Self::pair(
                    "status",
                    if failed {
                        String::from_str("Failed")
                    } else {
                        String::from_str("Passed")
                    },
                ),
            );
            data.push(
                Self::pair(
                    "status_icon",
                    if failed {
                        String::from_str("\u{274c}")
                    } else {
                        String::from_str("\u{2705}")
                    },
                ),
            );
            assert(pair_texts(data@) =~= template_data(*results, logs_url@));
            VariablesUtils::replace_vars(self.config.message_template.as_str(), &data, None)
        } else {
            let mut m = String::from_str("Test Run Completed:\n\u{2705} Passed: ");
            m.append(decimal_string(results.passed).as_str());
            m.append("\n\u{274c} Failed: ");
            m.append(decimal_string(results.failed).as_str());
            m.append("\n\u{1f4cb} Total: ");
            m.append(decimal_string(results.total).as_str());
            m.append("\nStart Time: ");
            m.append(Self::time(results.start_time).as_str());
            m.append("\nEnd Time: ");
            m.append(Self::time(results.end_time).as_str());
            m.append("\nLogs: ");
            m.append(logs_url);
            m.append("\nErrors: ");
            m.append(errors.as_str());
            m
        }
    }

    /// Where the log of the run is stored; nowhere when there is no log.
    pub fn upload_logs_to_s3(&self, results: &Results, s3_config: &S3Config) -> (upload: Option<
        LogUpload,
    >)
        ensures
            match upload {
                Some(u) => {
                    &&& results.full_log@.len() > 0
                    &&& u.bucket@ == s3_config.bucket@
                    &&& u.key@ == log_key(s3_config.key_prefix@, results.start_time)
                    &&& u.url@ == log_url(s3_config.bucket@, u.key@)
                },
                None => results.full_log@.len() == 0,
            },
    {
        if results.full_log.as_str().unicode_len() == 0 {
            return None;
        }
        let mut raw = s3_config.key_prefix.clone();
        raw.append("results_");
        raw.append(Self::time(results.start_time).as_str());
        raw.append(".txt");
        let key = replace_text(raw.as_str(), " ", "_");
        let mut url = String::from_str("https://");
        url.append(s3_config.bucket.as_str());
        url.append(".s3.amazonaws.com/");
        url.append(key.as_str());
        Some(LogUpload { bucket: s3_config.bucket.clone(), key, url })
    }

    /// How the call of the webhook ended, given whether the answer's
    /// status was a success and how the status reads: an error unless the
    /// configuration says to ignore it.
    pub fn send_message(&self, success: bool, status: &str) -> (r: Result<(), String>)
        ensures
            match r {
                Ok(_) => success || self.config.ignore_error,
                Err(e) => !success && !self.config.ignore_error && e@
                    == "Webhook API returned error status: "@ + status@,
            },
    {
        if success || self.config.ignore_error {
            return Ok(());
        }
        let mut e = String::from_str("Webhook API returned error status: ");
        e.append(status);
        Err(e)
    }
}

impl Hook for HookResults {
    open spec fn phase(&self) -> HookType {
        HookType::Finished
    }

    open spec fn tolerant(&self) -> bool {
        true
    }

    fn get_type(&self) -> (t: HookType) {
        HookType::Finished
    }

    fn continue_on_error(&self) -> (b: bool) {
        true
    }
}

} // verus!
