//! The collector configuration form: fourteen text fields, a focus, and the
//! validation that decides whether the configuration may be saved.

use vstd::prelude::*;
use crate::text::{
    all_digits, decimal, digit_value, digits_value, is_blank, is_blank_str, lemma_decimal_parses,
    parse_unsigned, parses_unsigned, unsigned_body,
};

verus! {

broadcast use vstd::string::group_string_axioms;

/// Number of editable fields of the form.
pub const FIELD_COUNT: usize = 14;

/// Largest value of a TCP port (`u16`).
pub const PORT_MAX: u64 = 65535;

/// Largest collection interval in seconds (`u32`).
pub const INTERVAL_MAX: u64 = 4294967295;

/// Where the keyboard focus of the form is.
#[derive(Debug, Clone, PartialEq, Eq, Structural)]
pub enum FocusState {
    Field(usize),
    SaveButton,
    CancelButton,
}

/// The values entered for the collector's configuration.
#[derive(Debug, Clone)]
pub struct FormData {
    // PostgreSQL settings
    pub postgres_host: String,
    pub postgres_user: String,
    pub postgres_password: String,
    pub postgres_port: String,
    pub postgres_db: String,
    pub postgres_schema: String,
    // Hypervisor/SSH settings
    pub hypervisor_host: String,
    pub hypervisor_user: String,
    pub hypervisor_password: String,
    // Collector settings
    pub cluster_name: String,
    pub interval_seconds: String,
    pub prometheus_url: String,
    pub log_retention_days: String,
    pub data_retention_days: String,
    pub focus_state: FocusState,
    pub error_message: String,
}

/// The label of field `idx`, or "Unknown" past the last field.
pub open spec fn field_label(idx: int) -> Seq<char> {
    if idx == 0 {
        "PostgreSQL Host"@
    } else if idx == 1 {
        "PostgreSQL User"@
    } else if idx == 2 {
        "PostgreSQL Password"@
    } else if idx == 3 {
        "PostgreSQL Port"@
    } else if idx == 4 {
        "PostgreSQL Database"@
    } else if idx == 5 {
        "PostgreSQL Schema"@
    } else if idx == 6 {
        "Hypervisor Host"@
    } else if idx == 7 {
        "Hypervisor User"@
    } else if idx == 8 {
        "Hypervisor Password"@
    } else if idx == 9 {
        "Cluster Name"@
    } else if idx == 10 {
        "Interval Seconds"@
    } else if idx == 11 {
        "Prometheus URL (optional)"@
    } else if idx == 12 {
        "Log Retention Days"@
    } else if idx == 13 {
        "Data Retention Days"@
    } else {
        "Unknown"@
    }
}

/// The fields that must not be blank: the PostgreSQL host and password and
/// the hypervisor host and password.
pub open spec fn field_required(idx: int) -> bool {
    idx == 0 || idx == 2 || idx == 6 || idx == 8
}

/// The fields whose content is a secret.
pub open spec fn field_secret(idx: int) -> bool {
    idx == 2 || idx == 8
}

/// The error messages of `validate`, one per rule.
pub open spec fn msg_postgres_host() -> Seq<char> {
    "PostgreSQL Host is required!"@
}

pub open spec fn msg_postgres_password() -> Seq<char> {
    "PostgreSQL Password is required!"@
}

pub open spec fn msg_hypervisor_host() -> Seq<char> {
    "Hypervisor Host is required!"@
}

pub open spec fn msg_hypervisor_password() -> Seq<char> {
    "Hypervisor Password is required!"@
}

pub open spec fn msg_postgres_port() -> Seq<char> {
    "PostgreSQL Port must be a valid number!"@
}

pub open spec fn msg_interval() -> Seq<char> {
    "Interval Seconds must be a valid number!"@
}

impl FormData {
    /// The text of field `idx`, in the order of the labels; an index past the
    /// last field stands for the first one.
    pub open spec fn field(&self, idx: int) -> String {
        if idx == 1 {
            self.postgres_user
        } else if idx == 2 {
            self.postgres_password
        } else if idx == 3 {
            self.postgres_port
        } else if idx == 4 {
            self.postgres_db
        } else if idx == 5 {
            self.postgres_schema
        } else if idx == 6 {
            self.hypervisor_host
        } else if idx == 7 {
            self.hypervisor_user
        } else if idx == 8 {
            self.hypervisor_password
        } else if idx == 9 {
            self.cluster_name
        } else if idx == 10 {
            self.interval_seconds
        } else if idx == 11 {
            self.prometheus_url
        } else if idx == 12 {
            self.log_retention_days
        } else if idx == 13 {
            self.data_retention_days
        } else {
            self.postgres_host
        }
    }

    /// The form with field `idx` replaced by `v` (field 0 for an index past the last).
    pub open spec fn with_field(self, idx: int, v: String) -> FormData {
        if idx == 1 {
            FormData { postgres_user: v, ..self }
        } else if idx == 2 {
            FormData { postgres_password: v, ..self }
        } else if idx == 3 {
            FormData { postgres_port: v, ..self }
        } else if idx == 4 {
            FormData { postgres_db: v, ..self }
        } else if idx == 5 {
            FormData { postgres_schema: v, ..self }
        } else if idx == 6 {
            FormData { hypervisor_host: v, ..self }
        } else if idx == 7 {
            FormData { hypervisor_user: v, ..self }
        } else if idx == 8 {
            FormData { hypervisor_password: v, ..self }
        } else if idx == 9 {
            FormData { cluster_name: v, ..self }
        } else if idx == 10 {
            FormData { interval_seconds: v, ..self }
        } else if idx == 11 {
            FormData { prometheus_url: v, ..self }
        } else if idx == 12 {
            FormData { log_retention_days: v, ..self }
        } else if idx == 13 {
            FormData { data_retention_days: v, ..self }
        } else {
            FormData { postgres_host: v, ..self }
        }
    }

    /// The field that keyboard input edits: the focused field, or the first
    /// field when the focus is on a button or past the last field.
    pub open spec fn edited_index(&self) -> int {
        match self.focus_state {
            FocusState::Field(i) => if i < FIELD_COUNT {
                i as int
            } else {
                0
            },
            _ => 0,
        }
    }

    /// The first rule that the entries break, in the order `validate`
    /// checks them, with its message; `None` when all hold.
    pub open spec fn validation_error(&self) -> Option<Seq<char>> {
        if is_blank(self.postgres_host@) {
            Some(msg_postgres_host())
        } else if is_blank(self.postgres_password@) {
            Some(msg_postgres_password())
        } else if is_blank(self.hypervisor_host@) {
            Some(msg_hypervisor_host())
        } else if is_blank(self.hypervisor_password@) {
            Some(msg_hypervisor_password())
        } else if !parses_unsigned(self.postgres_port@, PORT_MAX as nat) {
            Some(msg_postgres_port())
        } else if !parses_unsigned(self.interval_seconds@, INTERVAL_MAX as nat) {
            Some(msg_interval())
        } else {
            None
        }
    }

    /// The entries may be saved.
    pub open spec fn is_valid(&self) -> bool {
        self.validation_error() is None
    }

    /// A fresh form with the defaults of a local deployment: PostgreSQL
    /// `postgres@postgres:5432`, database `hypervisor`, schema `fluentd`,
    /// cluster `harvester`, a 60 second interval, Prometheus at
    /// `http://127.0.0.1:9090`, logs kept 365 days and data 30 days, empty secrets and hypervisor settings, and the
    /// focus on the first field.
    pub fn new() -> (r: Self)
        ensures
            r.postgres_host@ == "postgres"@,
            r.postgres_user@ == "postgres"@,
            r.postgres_password@ == Seq::<char>::empty(),
            r.postgres_port@ == "5432"@,
            r.postgres_db@ == "hypervisor"@,
            r.postgres_schema@ == "fluentd"@,
            r.hypervisor_host@ == Seq::<char>::empty(),
            r.hypervisor_user@ == Seq::<char>::empty(),
            r.hypervisor_password@ == Seq::<char>::empty(),
            r.cluster_name@ == "harvester"@,
            r.interval_seconds@ == "60"@,
            r.prometheus_url@ == "http://127.0.0.1:9090"@,
            r.log_retention_days@ == "365"@,
            r.data_retention_days@ == "30"@,
            r.focus_state == FocusState::Field(0),
            r.error_message@ == Seq::<char>::empty(),
    {
        Self {
            postgres_host: "postgres".to_string(),
            postgres_user: "postgres".to_string(),
            postgres_password: String::new(),
            postgres_port: "5432".to_string(),
            postgres_db: "hypervisor".to_string(),
            postgres_schema: "fluentd".to_string(),
            hypervisor_host: String::new(),
            hypervisor_user: String::new(),
            hypervisor_password: String::new(),
            cluster_name: "harvester".to_string(),
            interval_seconds: "60".to_string(),
            prometheus_url: "http://127.0.0.1:9090".to_string(),
            log_retention_days: "365".to_string(),
            data_retention_days: "30".to_string(),
            focus_state: FocusState::Field(0),
            error_message: String::new(),
        }
    }

    /// Checks the entries; sets the message of the first rule broken, or
    /// clears the message when every rule holds. Only the message changes.
    pub fn validate(&mut self) -> (r: bool)
        ensures
            r == old(self).is_valid(),
            final(self).error_message@ == (match old(self).validation_error() {
                Some(m) => m,
                None => Seq::<char>::empty(),
            }),
            *final(self) == (FormData { error_message: final(self).error_message, ..*old(self) }),
    {
        if is_blank_str(self.postgres_host.as_str()) {
            self.error_message = "PostgreSQL Host is required!".to_string();
            return false;
        }
        if is_blank_str(self.postgres_password.as_str()) {
            self.error_message = "PostgreSQL Password is required!".to_string();
            return false;
        }
        if is_blank_str(self.hypervisor_host.as_str()) {
            self.error_message = "Hypervisor Host is required!".to_string();
            return false;
        }
        if is_blank_str(self.hypervisor_password.as_str()) {
            self.error_message = "Hypervisor Password is required!".to_string();
            return false;
        }
        if parse_unsigned(self.postgres_port.as_str(), PORT_MAX).is_none() {
            self.error_message = "PostgreSQL Port must be a valid number!".to_string();
            return false;
        }
        if parse_unsigned(self.interval_seconds.as_str(), INTERVAL_MAX).is_none() {
            self.error_message = "Interval Seconds must be a valid number!".to_string();
            return false;
        }
        self.error_message = String::new();
        true
    }

    /// The text that keyboard input edits (see `edited_index`); writing
    /// through the reference changes that field and nothing else.
    pub fn get_current_value_mut(&mut self) -> (r: &mut String)
        ensures
            *r == old(self).field(old(self).edited_index()),
            *final(self) == old(self).with_field(old(self).edited_index(), *final(r)),
    {
        match &self.focus_state {
            FocusState::Field(idx) => match idx {
                0 => &mut self.postgres_host,
                1 => &mut self.postgres_user,
                2 => &mut self.postgres_password,
                3 => &mut self.postgres_port,
                4 => &mut self.postgres_db,
                5 => &mut self.postgres_schema,
                6 => &mut self.hypervisor_host,
                7 => &mut self.hypervisor_user,
                8 => &mut self.hypervisor_password,
                9 => &mut self.cluster_name,
                10 => &mut self.interval_seconds,
                11 => &mut self.prometheus_url,
                12 => &mut self.log_retention_days,
                13 => &mut self.data_retention_days,
                _ => &mut self.postgres_host,
            },
            _ => &mut self.postgres_host,
        }
    }

    /// The text of field `idx` (the first field for an index past the last).
    pub fn get_field_value(&self, idx: usize) -> (r: &String)
        ensures
            *r == self.field(idx as int),
    {
        match idx {
            1 => &self.postgres_user,
            2 => &self.postgres_password,
            3 => &self.postgres_port,
            4 => &self.postgres_db,
            5 => &self.postgres_schema,
            6 => &self.hypervisor_host,
            7 => &self.hypervisor_user,
            8 => &self.hypervisor_password,
            9 => &self.cluster_name,
            10 => &self.interval_seconds,
            11 => &self.prometheus_url,
            12 => &self.log_retention_days,
            13 => &self.data_retention_days,
            _ => &self.postgres_host,
        }
    }

    /// The number of fields.
    pub fn get_total_fields(&self) -> (r: usize)
        ensures
            r == FIELD_COUNT,
    {
        14
    }

    /// The label shown before field `idx`.
    pub fn get_field_label(&self, idx: usize) -> (r: &str)
        ensures
            r@ == field_label(idx as int),
    {
        match idx {
            0 => "PostgreSQL Host",
            1 => "PostgreSQL User",
            2 => "PostgreSQL Password",
            3 => "PostgreSQL Port",
            4 => "PostgreSQL Database",
            5 => "PostgreSQL Schema",
            6 => "Hypervisor Host",
            7 => "Hypervisor User",
            8 => "Hypervisor Password",
            9 => "Cluster Name",
            10 => "Interval Seconds",
            11 => "Prometheus URL (optional)",
            12 => "Log Retention Days",
            13 => "Data Retention Days",
            _ => "Unknown",
        }
    }

    /// Whether field `idx` must be filled in.
    pub fn is_field_required(&self, idx: usize) -> (r: bool)
        ensures
            r == field_required(idx as int),
    {
        idx == 0 || idx == 2 || idx == 6 || idx == 8
    }

    /// Whether field `idx` holds a secret, shown masked.
    pub fn is_password_field(&self, idx: usize) -> (r: bool)
        ensures
            r == field_secret(idx as int),
    {
        idx == 2 || idx == 8
    }
}


/// Law: the verdict and message of `validate` depend on the entries alone,
/// not on the message already shown; so validating twice gives the same
/// verdict and message as validating once.
pub proof fn lemma_validation_ignores_message(f: FormData, m: String)
    ensures
        (FormData { error_message: m, ..f }).validation_error() == f.validation_error(),
{
}

/// Law: the secret fields are among the required ones, and every required
/// field is one of the fourteen.
pub proof fn lemma_secret_fields_required(idx: int)
    ensures
        field_secret(idx) ==> field_required(idx),
        field_required(idx) ==> 0 <= idx < FIELD_COUNT,
{
}

/// Law: each of the fourteen fields has a label of its own, and past the last
/// field the label is "Unknown".
pub proof fn lemma_labels_cover_fields(idx: int)
    ensures
        0 <= idx < FIELD_COUNT ==> field_label(idx) != "Unknown"@,
        !(0 <= idx < FIELD_COUNT) ==> field_label(idx) == "Unknown"@,
{
    reveal_strlit("Unknown");
    reveal_strlit("PostgreSQL Host");
    reveal_strlit("PostgreSQL User");
    reveal_strlit("PostgreSQL Password");
    reveal_strlit("PostgreSQL Port");
    reveal_strlit("PostgreSQL Database");
    reveal_strlit("PostgreSQL Schema");
    reveal_strlit("Hypervisor Host");
    reveal_strlit("Hypervisor User");
    reveal_strlit("Hypervisor Password");
    reveal_strlit("Cluster Name");
    reveal_strlit("Interval Seconds");
    reveal_strlit("Prometheus URL (optional)");
    reveal_strlit("Log Retention Days");
    reveal_strlit("Data Retention Days");
    if 0 <= idx < FIELD_COUNT {
        assert(field_label(idx)[0] != 'U' || field_label(idx)[1] != 'n');
    }
}

/// Law: a blank required field is refused, and when it is the first blank
/// required field in form order, the message names it: its label followed
/// by " is required!".
pub proof fn lemma_required_field_refused(f: FormData, idx: int)
    requires
        field_required(idx),
        is_blank(f.field(idx)@),
        forall|j: int| 0 <= j < idx && field_required(j) ==> !is_blank(#[trigger] f.field(j)@),
    ensures
        !f.is_valid(),
        f.validation_error() == Some(field_label(idx) + " is required!"@),
{
    reveal_strlit(" is required!");
    reveal_strlit("PostgreSQL Host");
    reveal_strlit("PostgreSQL Password");
    reveal_strlit("Hypervisor Host");
    reveal_strlit("Hypervisor Password");
    reveal_strlit("PostgreSQL Host is required!");
    reveal_strlit("PostgreSQL Password is required!");
    reveal_strlit("Hypervisor Host is required!");
    reveal_strlit("Hypervisor Password is required!");
    assert(f.field(0) == f.postgres_host);
    assert(f.field(2) == f.postgres_password);
    assert(f.field(6) == f.hypervisor_host);
    assert(f.field(8) == f.hypervisor_password);
    if idx == 0 {
        assert(msg_postgres_host() =~= field_label(0) + " is required!"@);
    } else if idx == 2 {
        assert(!is_blank(f.field(0)@));
        assert(msg_postgres_password() =~= field_label(2) + " is required!"@);
    } else if idx == 6 {
        assert(!is_blank(f.field(0)@));
        assert(!is_blank(f.field(2)@));
        assert(msg_hypervisor_host() =~= field_label(6) + " is required!"@);
    } else {
        assert(!is_blank(f.field(0)@));
        assert(!is_blank(f.field(2)@));
        assert(!is_blank(f.field(6)@));
        assert(msg_hypervisor_password() =~= field_label(8) + " is required!"@);
    }
}

/// Law: the default port and interval pass validation; a form that keeps
/// them is valid as soon as its required fields are filled in.
pub proof fn lemma_defaults_accepted(f: FormData)
    requires
        f.postgres_port@ == "5432"@,
        f.interval_seconds@ == "60"@,
        forall|j: int| 0 <= j < FIELD_COUNT && field_required(j) ==> !is_blank(#[trigger] f.field(j)@),
    ensures
        f.is_valid(),
{
    reveal_strlit("5432");
    reveal_strlit("60");
    assert(f.field(0) == f.postgres_host);
    assert(f.field(2) == f.postgres_password);
    assert(f.field(6) == f.hypervisor_host);
    assert(f.field(8) == f.hypervisor_password);
    assert(!is_blank(f.field(0)@));
    assert(!is_blank(f.field(2)@));
    assert(!is_blank(f.field(6)@));
    assert(!is_blank(f.field(8)@));
    let port = f.postgres_port@;
    assert(unsigned_body(port) == port);
    assert(all_digits(port));
    assert(port.drop_last() =~= seq!['5', '4', '3']);
    assert(seq!['5', '4', '3'].drop_last() =~= seq!['5', '4']);
    assert(seq!['5', '4'].drop_last() =~= seq!['5']);
    assert(seq!['5'].drop_last() =~= Seq::<char>::empty());
    assert(('5' as u32) == 53);
    assert(digit_value('5') == 5);
    assert(seq!['5'].last() == '5');
    assert(digits_value(Seq::<char>::empty()) == 0);
    assert(digits_value(seq!['5']) == 5);
    assert(digits_value(seq!['5', '4']) == 54);
    assert(digits_value(seq!['5', '4', '3']) == 543);
    assert(digits_value(port) == 5432);
    let iv = f.interval_seconds@;
    assert(unsigned_body(iv) == iv);
    assert(all_digits(iv));
    assert(iv.drop_last() =~= seq!['6']);
    assert(seq!['6'].drop_last() =~= Seq::<char>::empty());
    assert(('6' as u32) == 54);
    assert(('0' as u32) == 48);
    assert(seq!['6'].last() == '6');
    assert(digits_value(seq!['6']) == 6);
    assert(iv.last() == '0');
    assert(digits_value(iv) == 60);
}


/// Law: the form is accepted exactly when the PostgreSQL host and password
/// and the hypervisor host and password each hold a character other than
/// white space, the port is a decimal number no larger than 65535 (a `u16`)
/// and the interval a decimal number no larger than 4294967295 (a `u32`).
/// Nothing else is checked: the other fields, the focus and the message
/// play no part.
pub proof fn lemma_validate_accepts_exactly(f: FormData)
    ensures
        f.is_valid() <==> {
            &&& !is_blank(f.postgres_host@)
            &&& !is_blank(f.postgres_password@)
            &&& !is_blank(f.hypervisor_host@)
            &&& !is_blank(f.hypervisor_password@)
            &&& parses_unsigned(f.postgres_port@, 65535)
            &&& parses_unsigned(f.interval_seconds@, 4294967295)
        },
{
}

/// Law: once the required fields are filled in and the port is valid, the
/// verdict is the same for every interval written in decimal: accepted for
/// every number from 0 to 4294967295, refused above.
pub proof fn lemma_any_u32_interval_accepted(f: FormData, n: nat)
    requires
        !is_blank(f.postgres_host@),
        !is_blank(f.postgres_password@),
        !is_blank(f.hypervisor_host@),
        !is_blank(f.hypervisor_password@),
        parses_unsigned(f.postgres_port@, 65535),
        f.interval_seconds@ == decimal(n),
    ensures
        f.is_valid() <==> n <= 4294967295,
{
    lemma_decimal_parses(n, 4294967295);
    lemma_validate_accepts_exactly(f);
}

proof fn lemma_label_key(k: int)
    requires
        0 <= k < FIELD_COUNT,
    ensures
        k == 0 ==> field_label(k).len() == 15 && field_label(k)[0] == 'P' && field_label(k)[11] == 'H',
        k == 1 ==> field_label(k).len() == 15 && field_label(k)[0] == 'P' && field_label(k)[11] == 'U',
        k == 2 ==> field_label(k).len() == 19 && field_label(k)[0] == 'P' && field_label(k)[11] == 'P',
        k == 3 ==> field_label(k).len() == 15 && field_label(k)[0] == 'P' && field_label(k)[11] == 'P',
        k == 4 ==> field_label(k).len() == 19 && field_label(k)[0] == 'P' && field_label(k)[11] == 'D',
        k == 5 ==> field_label(k).len() == 17 && field_label(k)[0] == 'P' && field_label(k)[11] == 'S',
        k == 6 ==> field_label(k).len() == 15 && field_label(k)[0] == 'H' && field_label(k)[11] == 'H',
        k == 7 ==> field_label(k).len() == 15 && field_label(k)[0] == 'H' && field_label(k)[11] == 'U',
        k == 8 ==> field_label(k).len() == 19 && field_label(k)[0] == 'H' && field_label(k)[11] == 'P',
        k == 9 ==> field_label(k).len() == 12 && field_label(k)[0] == 'C' && field_label(k)[11] == 'e',
        k == 10 ==> field_label(k).len() == 16 && field_label(k)[0] == 'I' && field_label(k)[11] == 'c',
        k == 11 ==> field_label(k).len() == 25 && field_label(k)[0] == 'P' && field_label(k)[11] == 'U',
        k == 12 ==> field_label(k).len() == 18 && field_label(k)[0] == 'L' && field_label(k)[11] == 'o',
        k == 13 ==> field_label(k).len() == 19 && field_label(k)[0] == 'D' && field_label(k)[11] == 'i',
{
    reveal_strlit("PostgreSQL Host");
    reveal_strlit("PostgreSQL User");
    reveal_strlit("PostgreSQL Password");
    reveal_strlit("PostgreSQL Port");
    reveal_strlit("PostgreSQL Database");
    reveal_strlit("PostgreSQL Schema");
    reveal_strlit("Hypervisor Host");
    reveal_strlit("Hypervisor User");
    reveal_strlit("Hypervisor Password");
    reveal_strlit("Cluster Name");
    reveal_strlit("Interval Seconds");
    reveal_strlit("Prometheus URL (optional)");
    reveal_strlit("Log Retention Days");
    reveal_strlit("Data Retention Days");
}

/// Law: keyboard input goes to the field named by the label of the focused
/// row: with the focus on field `i` (one of the fourteen), the edited index
/// is `i`, and the struct field that is read and replaced is the one whose
/// label `field_label(i)` names. With the focus on a button, the PostgreSQL
/// host is edited.
pub proof fn lemma_edit_targets_labelled_field(f: FormData, v: String)
    ensures
        f.focus_state is Field && f.focus_state->Field_0 < FIELD_COUNT ==> f.edited_index()
            == f.focus_state->Field_0,
        !(f.focus_state is Field) ==> f.field(f.edited_index()) == f.postgres_host && f.with_field(
            f.edited_index(),
            v,
        ) == (FormData { postgres_host: v, ..f }),
        ({
            let k = f.edited_index();
            let l = field_label(k);
            &&& l == "PostgreSQL Host"@ ==> f.field(k) == f.postgres_host && f.with_field(k, v) == (
            FormData { postgres_host: v, ..f })
            &&& l == "PostgreSQL User"@ ==> f.field(k) == f.postgres_user && f.with_field(k, v) == (
            FormData { postgres_user: v, ..f })
            &&& l == "PostgreSQL Password"@ ==> f.field(k) == f.postgres_password && f.with_field(k, v)
                == (FormData { postgres_password: v, ..f })
            &&& l == "PostgreSQL Port"@ ==> f.field(k) == f.postgres_port && f.with_field(k, v) == (
            FormData { postgres_port: v, ..f })
            &&& l == "PostgreSQL Database"@ ==> f.field(k) == f.postgres_db && f.with_field(k, v) == (
            FormData { postgres_db: v, ..f })
            &&& l == "PostgreSQL Schema"@ ==> f.field(k) == f.postgres_schema && f.with_field(k, v) == (
            FormData { postgres_schema: v, ..f })
            &&& l == "Hypervisor Host"@ ==> f.field(k) == f.hypervisor_host && f.with_field(k, v) == (
            FormData { hypervisor_host: v, ..f })
            &&& l == "Hypervisor User"@ ==> f.field(k) == f.hypervisor_user && f.with_field(k, v) == (
            FormData { hypervisor_user: v, ..f })
            &&& l == "Hypervisor Password"@ ==> f.field(k) == f.hypervisor_password && f.with_field(k, v)
                == (FormData { hypervisor_password: v, ..f })
            &&& l == "Cluster Name"@ ==> f.field(k) == f.cluster_name && f.with_field(k, v) == (FormData {
                cluster_name: v,
                ..f
            })
            &&& l == "Interval Seconds"@ ==> f.field(k) == f.interval_seconds && f.with_field(k, v) == (
            FormData { interval_seconds: v, ..f })
            &&& l == "Prometheus URL (optional)"@ ==> f.field(k) == f.prometheus_url && f.with_field(k, v)
                == (FormData { prometheus_url: v, ..f })
            &&& l == "Log Retention Days"@ ==> f.field(k) == f.log_retention_days && f.with_field(k, v)
                == (FormData { log_retention_days: v, ..f })
            &&& l == "Data Retention Days"@ ==> f.field(k) == f.data_retention_days && f.with_field(k, v)
                == (FormData { data_retention_days: v, ..f })
        }),
{
    reveal_strlit("PostgreSQL Host");
    reveal_strlit("PostgreSQL User");
    reveal_strlit("PostgreSQL Password");
    reveal_strlit("PostgreSQL Port");
    reveal_strlit("PostgreSQL Database");
    reveal_strlit("PostgreSQL Schema");
    reveal_strlit("Hypervisor Host");
    reveal_strlit("Hypervisor User");
    reveal_strlit("Hypervisor Password");
    reveal_strlit("Cluster Name");
    reveal_strlit("Interval Seconds");
    reveal_strlit("Prometheus URL (optional)");
    reveal_strlit("Log Retention Days");
    reveal_strlit("Data Retention Days");
    let k = f.edited_index();
    assert(0 <= k < FIELD_COUNT);
    // Any two labels differ in length, first character or twelfth character.
    assert("PostgreSQL Host"@.len() == 15 && "PostgreSQL Host"@[0] == 'P' && "PostgreSQL Host"@[11] == 'H');
    assert("PostgreSQL User"@.len() == 15 && "PostgreSQL User"@[0] == 'P' && "PostgreSQL User"@[11] == 'U');
    assert("PostgreSQL Password"@.len() == 19 && "PostgreSQL Password"@[0] == 'P' && "PostgreSQL Password"@[11] == 'P');
    assert("PostgreSQL Port"@.len() == 15 && "PostgreSQL Port"@[0] == 'P' && "PostgreSQL Port"@[11] == 'P');
    assert("PostgreSQL Database"@.len() == 19 && "PostgreSQL Database"@[0] == 'P' && "PostgreSQL Database"@[11] == 'D');
    assert("PostgreSQL Schema"@.len() == 17 && "PostgreSQL Schema"@[0] == 'P' && "PostgreSQL Schema"@[11] == 'S');
    assert("Hypervisor Host"@.len() == 15 && "Hypervisor Host"@[0] == 'H' && "Hypervisor Host"@[11] == 'H');
    assert("Hypervisor User"@.len() == 15 && "Hypervisor User"@[0] == 'H' && "Hypervisor User"@[11] == 'U');
    assert("Hypervisor Password"@.len() == 19 && "Hypervisor Password"@[0] == 'H' && "Hypervisor Password"@[11] == 'P');
    assert("Cluster Name"@.len() == 12 && "Cluster Name"@[0] == 'C' && "Cluster Name"@[11] == 'e');
    assert("Interval Seconds"@.len() == 16 && "Interval Seconds"@[0] == 'I' && "Interval Seconds"@[11] == 'c');
    assert("Prometheus URL (optional)"@.len() == 25 && "Prometheus URL (optional)"@[0] == 'P' && "Prometheus URL (optional)"@[11] == 'U');
    assert("Log Retention Days"@.len() == 18 && "Log Retention Days"@[0] == 'L' && "Log Retention Days"@[11] == 'o');
    assert("Data Retention Days"@.len() == 19 && "Data Retention Days"@[0] == 'D' && "Data Retention Days"@[11] == 'i');
    lemma_label_key(k);
}

} // verus!
