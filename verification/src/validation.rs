//! Field-level checks on the values a caller is about to persist.
//!
//! Every check is a pure function. The repository never calls them: a caller
//! runs the checks that apply to the fields it is about to write.

use vstd::prelude::*;

verus! {

/// A failed check: the field it was made on and what is wrong with it.
#[derive(Debug, PartialEq, Eq)]
pub struct ValidationError {
    pub field: String,
    pub message: String,
}

impl ValidationError {
    /// A failure of the check on `field`, described by `message`.
    pub fn new(field: &str, message: &str) -> (e: Self)
        ensures
            e.field@ == field@,
            e.message@ == message@,
    {
        ValidationError { field: field.to_owned(), message: message.to_owned() }
    }

    /// Whether this failure names `field` and carries `message`.
    pub open spec fn says(&self, field: Seq<char>, message: Seq<char>) -> bool {
        self.field@ == field && self.message@ == message
    }
}

impl Clone for ValidationError {
    fn clone(&self) -> (copy: Self)
        ensures
            copy.field@ == self.field@,
            copy.message@ == self.message@,
    {
        ValidationError { field: self.field.clone(), message: self.message.clone() }
    }
}

/// Longest accepted container name, in characters.
pub const MAX_NAME_LEN: usize = 64;

/// Longest accepted template name, in characters.
pub const MAX_TEMPLATE_LEN: usize = 32;

/// Accepted CPU limits, in whole cores.
pub const MIN_CPU_LIMIT: u32 = 1;

pub const MAX_CPU_LIMIT: u32 = 128;

/// Accepted memory limits, in bytes: 64 MiB to 1 TiB.
pub const MIN_MEMORY_LIMIT: u64 = 67_108_864;

pub const MAX_MEMORY_LIMIT: u64 = 1_099_511_627_776;

/// Accepted disk limits, in bytes: 100 MiB to 10 TiB.
pub const MIN_DISK_LIMIT: u64 = 104_857_600;

pub const MAX_DISK_LIMIT: u64 = 10_995_116_277_760;

/// A lowercase ASCII letter or an ASCII digit.
pub open spec fn is_lower_alnum(c: char) -> bool {
    ('a' <= c && c <= 'z') || ('0' <= c && c <= '9')
}

/// A character that may occur in a container name.
pub open spec fn is_name_char(c: char) -> bool {
    is_lower_alnum(c) || c == '-' || c == '.'
}

/// A character that may occur in a template name.
pub open spec fn is_template_char(c: char) -> bool {
    is_lower_alnum(c) || c == '-'
}

/// A container name is 1 to 64 characters long, starts with a lowercase
/// letter or a digit, and holds only lowercase letters, digits, `-` and `.`.
pub open spec fn valid_container_name(name: Seq<char>) -> bool {
    &&& 1 <= name.len() <= MAX_NAME_LEN
    &&& is_lower_alnum(name[0])
    &&& forall|i: int| 0 <= i < name.len() ==> is_name_char(#[trigger] name[i])
}

/// What is wrong with a container name: the first rule it breaks, in the
/// order emptiness, length, first character, character set.
pub open spec fn container_name_complaint(name: Seq<char>) -> Option<Seq<char>> {
    if name.len() == 0 {
        Some("Container name cannot be empty"@)
    } else if name.len() > MAX_NAME_LEN {
        Some("Container name must be 64 characters or fewer"@)
    } else if !is_lower_alnum(name[0]) {
        Some("Container name must start with lowercase alphanumeric"@)
    } else if exists|i: int| 0 <= i < name.len() && !is_name_char(#[trigger] name[i]) {
        Some("Container name can only contain lowercase alphanumeric, hyphens, and dots"@)
    } else {
        None
    }
}

/// A template name is 1 to 32 characters long and holds only lowercase
/// letters, digits and `-`.
pub open spec fn valid_template(template: Seq<char>) -> bool {
    &&& 1 <= template.len() <= MAX_TEMPLATE_LEN
    &&& forall|i: int| 0 <= i < template.len() ==> is_template_char(#[trigger] template[i])
}

/// What is wrong with a template name: the first rule it breaks, in the order
/// emptiness, length, character set.
pub open spec fn template_complaint(template: Seq<char>) -> Option<Seq<char>> {
    if template.len() == 0 {
        Some("Template cannot be empty"@)
    } else if template.len() > MAX_TEMPLATE_LEN {
        Some("Template name must be 32 characters or fewer"@)
    } else if exists|i: int| 0 <= i < template.len() && !is_template_char(#[trigger] template[i]) {
        Some("Template can only contain lowercase alphanumeric and hyphens"@)
    } else {
        None
    }
}

/// A CPU limit is 1 to 128 whole cores.
pub open spec fn valid_cpu_limit(limit: u32) -> bool {
    MIN_CPU_LIMIT <= limit <= MAX_CPU_LIMIT
}

/// A memory limit is 64 MiB to 1 TiB, both included.
pub open spec fn valid_memory_limit(limit: u64) -> bool {
    MIN_MEMORY_LIMIT <= limit <= MAX_MEMORY_LIMIT
}

/// What is wrong with a memory limit: too small, or else too large.
pub open spec fn memory_limit_complaint(limit: u64) -> Option<Seq<char>> {
    if limit < MIN_MEMORY_LIMIT {
        Some("Memory limit must be at least 64MB"@)
    } else if limit > MAX_MEMORY_LIMIT {
        Some("Memory limit must not exceed 1TB"@)
    } else {
        None
    }
}

/// A disk limit is 100 MiB to 10 TiB, both included.
pub open spec fn valid_disk_limit(limit: u64) -> bool {
    MIN_DISK_LIMIT <= limit <= MAX_DISK_LIMIT
}

/// What is wrong with a disk limit: too small, or else too large.
pub open spec fn disk_limit_complaint(limit: u64) -> Option<Seq<char>> {
    if limit < MIN_DISK_LIMIT {
        Some("Disk limit must be at least 100MB"@)
    } else if limit > MAX_DISK_LIMIT {
        Some("Disk limit must not exceed 10TB"@)
    } else {
        None
    }
}

/// Whether a check's outcome is the one that `complaint` calls for: success
/// where there is none, and otherwise a failure on `field` that carries it.
pub open spec fn reports(
    outcome: Result<(), ValidationError>,
    field: Seq<char>,
    complaint: Option<Seq<char>>,
) -> bool {
    match outcome {
        Ok(_) => complaint is None,
        Err(e) => complaint is Some && e.says(field, complaint->0),
    }
}

fn lower_alnum(c: char) -> (b: bool)
    ensures
        b == is_lower_alnum(c),
{
    ('a' <= c && c <= 'z') || ('0' <= c && c <= '9')
}

/// Whether every character of `text` is a lowercase letter, a digit, `-`, or,
/// where `dots` is set, `.`.
fn only_plain_chars(text: &str, dots: bool) -> (b: bool)
    ensures
        b == forall|i: int|
            0 <= i < text@.len() ==> is_template_char(#[trigger] text@[i]) || (dots && text@[i]
                == '.'),
{
    let mut plain = true;
    for c in it: text.chars()
        invariant
            it.seq() == text@,
            plain == forall|i: int|
                0 <= i < it.index() ==> is_template_char(#[trigger] text@[i]) || (dots && text@[i]
                    == '.'),
    {
        if !(lower_alnum(c) || c == '-' || (dots && c == '.')) {
            plain = false;
        }
    }
    plain
}

/// Checks a container name.
pub fn validate_container_name(name: &str) -> (outcome: Result<(), ValidationError>)
    ensures
        outcome is Ok <==> valid_container_name(name@),
        reports(outcome, "name"@, container_name_complaint(name@)),
{
    let len = name.unicode_len();
    if len == 0 {
        return Err(ValidationError::new("name", "Container name cannot be empty"));
    }
    if len > MAX_NAME_LEN {
        return Err(
            ValidationError::new("name", "Container name must be 64 characters or fewer"),
        );
    }
    if !lower_alnum(name.get_char(0)) {
        return Err(
            ValidationError::new("name", "Container name must start with lowercase alphanumeric"),
        );
    }
    if !only_plain_chars(name, true) {
        return Err(
            ValidationError::new(
                "name",
                "Container name can only contain lowercase alphanumeric, hyphens, and dots",
            ),
        );
    }
    Ok(())
}

/// Checks a CPU limit, in whole cores.
pub fn validate_cpu_limit(limit: u32) -> (outcome: Result<(), ValidationError>)
    ensures
        outcome is Ok <==> valid_cpu_limit(limit),
        outcome matches Err(e) ==> e.says(
            "config.cpu_limit"@,
            "CPU limit must be between 1 and 128"@,
        ),
{
    if limit < MIN_CPU_LIMIT || limit > MAX_CPU_LIMIT {
        return Err(ValidationError::new("config.cpu_limit", "CPU limit must be between 1 and 128"));
    }
    Ok(())
}

/// Checks a memory limit, in bytes.
pub fn validate_memory_limit(limit: u64) -> (outcome: Result<(), ValidationError>)
    ensures
        outcome is Ok <==> valid_memory_limit(limit),
        reports(outcome, "config.memory_limit"@, memory_limit_complaint(limit)),
{
    if limit < MIN_MEMORY_LIMIT {
        return Err(
            ValidationError::new("config.memory_limit", "Memory limit must be at least 64MB"),
        );
    }
    if limit > MAX_MEMORY_LIMIT {
        return Err(ValidationError::new("config.memory_limit", "Memory limit must not exceed 1TB"));
    }
    Ok(())
}

/// Checks a disk limit, in bytes.
pub fn validate_disk_limit(limit: u64) -> (outcome: Result<(), ValidationError>)
    ensures
        outcome is Ok <==> valid_disk_limit(limit),
        reports(outcome, "config.disk_limit"@, disk_limit_complaint(limit)),
{
    if limit < MIN_DISK_LIMIT {
        return Err(ValidationError::new("config.disk_limit", "Disk limit must be at least 100MB"));
    }
    if limit > MAX_DISK_LIMIT {
        return Err(ValidationError::new("config.disk_limit", "Disk limit must not exceed 10TB"));
    }
    Ok(())
}

/// Checks a template name.
pub fn validate_template(template: &str) -> (outcome: Result<(), ValidationError>)
    ensures
        outcome is Ok <==> valid_template(template@),
        reports(outcome, "template"@, template_complaint(template@)),
{
    let len = template.unicode_len();
    if len == 0 {
        return Err(ValidationError::new("template", "Template cannot be empty"));
    }
    if len > MAX_TEMPLATE_LEN {
        return Err(ValidationError::new("template", "Template name must be 32 characters or fewer"));
    }
    if !only_plain_chars(template, false) {
        return Err(
            ValidationError::new(
                "template",
                "Template can only contain lowercase alphanumeric and hyphens",
            ),
        );
    }
    Ok(())
}

} // verus!
