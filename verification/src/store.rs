//! The persistent config store: the record that holds a service's launch
//! configuration under the service's name, and the rules by which a
//! configuration is written to it and read back.

use vstd::prelude::*;
use crate::config::{
    clone_optional_text, clone_text, same_texts, LaunchConfig, LaunchConfigView, ServiceConfig,
    ServiceConfigView,
};
use crate::wide::{
    decode_utf16_lossy, lemma_wide_read_back, text_before_nul, to_wstring, wcslen, wide_byte_len,
    wide_len, wide_string, wide_to_string, without_nul,
};

verus! {

/// The platform's type code for a string value.
pub const REG_SZ: u32 = 1;

/// Why the store could not give or take a configuration.
#[derive(Clone, Copy, Debug, PartialEq, Eq, Structural)]
pub enum ConfigError {
    /// There is nothing to run: no service of the name is registered, there
    /// is no record under the name, or no file at the recorded executable
    /// path.
    NotFound,
    /// The record lacks the executable path, or its arguments do not decode.
    Corrupt,
    /// The store could not be opened for the service, a required value
    /// could not be written or removed, or the arguments have no encoding
    /// that reads back as the same arguments.
    IoFailure,
}

/// The values that a record can hold.
#[derive(Clone, Copy, Debug, PartialEq, Eq, Structural)]
pub enum StoreKey {
    TargetExecutable,
    Arguments,
    WorkingDirectory,
    StdoutPath,
    StderrPath,
}

/// One record of the store. A value that is not there is `None`; a value
/// that is there and empty is `Some` of the empty text.
#[derive(Debug, Clone)]
pub struct StoreRecord {
    pub target_executable: Option<String>,
    /// The argument list, encoded as one JSON array of strings.
    pub arguments: Option<String>,
    pub working_directory: Option<String>,
    pub stdout_path: Option<String>,
    pub stderr_path: Option<String>,
}

/// The mathematical value of a `StoreRecord`.
pub ghost struct StoreRecordView {
    pub target_executable: Option<Seq<char>>,
    pub arguments: Option<Seq<char>>,
    pub working_directory: Option<Seq<char>>,
    pub stdout_path: Option<Seq<char>>,
    pub stderr_path: Option<Seq<char>>,
}

impl View for StoreRecord {
    type V = StoreRecordView;

    open spec fn view(&self) -> StoreRecordView {
        StoreRecordView {
            target_executable: self.target_executable.deep_view(),
            arguments: self.arguments.deep_view(),
            working_directory: self.working_directory.deep_view(),
            stdout_path: self.stdout_path.deep_view(),
            stderr_path: self.stderr_path.deep_view(),
        }
    }
}

/// The error of `serde_json`, carried through without a look inside.
#[verifier::external_type_specification]
#[verifier::external_body]
pub struct ExJsonError(serde_json::Error);

/// The JSON text that `serde_json::to_string` gives for a list of strings,
/// or `None` where it gives an error.
pub uninterp spec fn json_text_of(items: Seq<Seq<char>>) -> Option<Seq<char>>;

/// The list of strings that `serde_json::from_str` reads out of a text, or
/// `None` where it gives an error.
pub uninterp spec fn json_items_of(text: Seq<char>) -> Option<Seq<Seq<char>>>;

/// `serde_json::to_string` on a list of strings. The call succeeds: its
/// documentation names as the only causes of failure a `Serialize` impl
/// that fails and a map with keys that are no strings, and a list of
/// strings has neither. The result is the named JSON text of the list;
/// nothing more is claimed of it.
#[verifier::external_body]
fn encode_arguments(items: &Vec<String>) -> (r: Result<String, serde_json::Error>)
    ensures
        r is Ok && json_text_of(items.deep_view()) == Some(r->Ok_0@),
{
    serde_json::to_string(items)
}

/// `serde_json::from_str` for a list of strings. The result is the named
/// list of the text; nothing more is claimed of it.
#[verifier::external_body]
fn decode_arguments(text: &str) -> (r: Result<Vec<String>, serde_json::Error>)
    ensures
        match r {
            Ok(items) => json_items_of(text@) == Some(items.deep_view()),
            Err(_) => json_items_of(text@) is None,
        },
{
    serde_json::from_str::<Vec<String>>(text)
}

/// The record of a configuration whose arguments are written as
/// `encoded_arguments`: the executable path and the optional paths as they
/// are; an optional path that is absent stays absent.
pub open spec fn spec_record_of(
    config: ServiceConfigView,
    encoded_arguments: Option<Seq<char>>,
) -> StoreRecordView {
    StoreRecordView {
        target_executable: Some(config.launch.executable_path),
        arguments: encoded_arguments,
        working_directory: config.launch.working_directory,
        stdout_path: config.launch.stdout_path,
        stderr_path: config.launch.stderr_path,
    }
}

/// The outcome of a save whose arguments were encoded as `text`, where
/// `read_back` is what was read back out of `text`: the record with `text`
/// where the arguments themselves were read back, a failure where anything
/// else or nothing was.
pub open spec fn spec_save_with_encoding(
    config: ServiceConfigView,
    text: Seq<char>,
    read_back: Option<Seq<Seq<char>>>,
) -> Result<StoreRecordView, ConfigError> {
    if read_back == Some(config.launch.arguments) {
        Ok(spec_record_of(config, Some(text)))
    } else {
        Err(ConfigError::IoFailure)
    }
}

/// The record that a configuration is saved as: the executable path and the
/// optional paths as they are, the arguments as their JSON text, and no
/// arguments value at all for an empty list. Saving fails where the
/// arguments have no JSON text, or one that does not read back as the same
/// arguments.
pub open spec fn spec_save(config: ServiceConfigView) -> Result<StoreRecordView, ConfigError> {
    if config.launch.arguments.len() == 0 {
        Ok(spec_record_of(config, None))
    } else {
        match json_text_of(config.launch.arguments) {
            Some(text) => spec_save_with_encoding(config, text, json_items_of(text)),
            None => Err(ConfigError::IoFailure),
        }
    }
}

/// The arguments that a record holds: none where the value is absent, the
/// decoded list where it is there, nothing where it does not decode.
pub open spec fn spec_record_arguments(record: StoreRecordView) -> Option<Seq<Seq<char>>> {
    match record.arguments {
        None => Some(Seq::empty()),
        Some(text) => json_items_of(text),
    }
}

/// The configuration that is loaded for `name` from a record whose
/// arguments were decoded as `arguments`, `None` where they do not decode.
/// Nothing is found where the store holds no record or the executable is
/// not on disk; the record is corrupt where it lacks the executable path or
/// its arguments do not decode.
pub open spec fn spec_load_with_arguments(
    name: Seq<char>,
    record: Option<StoreRecordView>,
    arguments: Option<Seq<Seq<char>>>,
    executable_on_disk: bool,
) -> Result<LaunchConfigView, ConfigError> {
    match record {
        None => Err(ConfigError::NotFound),
        Some(record) => match (record.target_executable, arguments) {
            (Some(executable_path), Some(arguments)) => if executable_on_disk {
                Ok(
                    LaunchConfigView {
                        name,
                        executable_path,
                        arguments,
                        working_directory: record.working_directory,
                        stdout_path: record.stdout_path,
                        stderr_path: record.stderr_path,
                    },
                )
            } else {
                Err(ConfigError::NotFound)
            },
            _ => Err(ConfigError::Corrupt),
        },
    }
}

/// The arguments of a record that may be missing.
pub open spec fn spec_stored_arguments(record: Option<StoreRecordView>) -> Option<Seq<Seq<char>>> {
    match record {
        Some(record) => spec_record_arguments(record),
        None => None,
    }
}

/// The configuration that is loaded for `name`. `registered` says whether
/// the platform knows a service of that name; `record` is what the store
/// holds under the name, `None` where it holds nothing;
/// `executable_on_disk` says whether the recorded executable path names an
/// existing file. Nothing is found for a service that is not registered,
/// whatever the store still holds under its name.
pub open spec fn spec_load(
    name: Seq<char>,
    registered: bool,
    record: Option<StoreRecordView>,
    executable_on_disk: bool,
) -> Result<LaunchConfigView, ConfigError> {
    if registered {
        spec_load_with_arguments(name, record, spec_stored_arguments(record), executable_on_disk)
    } else {
        Err(ConfigError::NotFound)
    }
}

/// The view of the result of a save.
pub open spec fn saved_view(r: Result<StoreRecord, ConfigError>) -> Result<
    StoreRecordView,
    ConfigError,
> {
    match r {
        Ok(record) => Ok(record@),
        Err(e) => Err(e),
    }
}

/// The view of the result of a load.
pub open spec fn loaded_view(r: Result<LaunchConfig, ConfigError>) -> Result<
    LaunchConfigView,
    ConfigError,
> {
    match r {
        Ok(config) => Ok(config@),
        Err(e) => Err(e),
    }
}

/// The view of a record that may be missing.
pub open spec fn optional_record_view(record: Option<&StoreRecord>) -> Option<StoreRecordView> {
    match record {
        Some(record) => Some(record@),
        None => None,
    }
}

/// Saving and then loading gives the configuration back: where a
/// configuration is saved as `record`, loading `record` under the
/// configuration's name gives the configuration's launch part, every absent
/// optional field absent and every present one as it was, as long as the
/// service is registered and the executable is on disk.
pub proof fn lemma_save_then_load(config: ServiceConfigView, record: StoreRecordView)
    requires
        spec_save(config) == Ok::<StoreRecordView, ConfigError>(record),
    ensures
        spec_load(config.launch.name, true, Some(record), true) == Ok::<LaunchConfigView, ConfigError>(
            config.launch,
        ),
        config.launch.working_directory is None <==> record.working_directory is None,
        config.launch.stdout_path is None <==> record.stdout_path is None,
        config.launch.stderr_path is None <==> record.stderr_path is None,
{
    if config.launch.arguments.len() == 0 {
        assert(config.launch.arguments =~= Seq::empty());
    }
}

/// Builds the record of a configuration whose arguments are written as
/// `encoded_arguments`, or not at all where that is `None`.
pub fn record_of(config: &ServiceConfig, encoded_arguments: Option<String>) -> (record:
    StoreRecord)
    ensures
        record@ == spec_record_of(config@, encoded_arguments.deep_view()),
{
    StoreRecord {
        target_executable: Some(clone_text(&config.executable_path)),
        arguments: encoded_arguments,
        working_directory: clone_optional_text(&config.working_directory),
        stdout_path: clone_optional_text(&config.stdout_path),
        stderr_path: clone_optional_text(&config.stderr_path),
    }
}

/// Finishes a save whose arguments were encoded as `text`: `read_back` is
/// what was read back out of `text`, `None` where nothing could be. The
/// record is made only where the arguments themselves were read back, so
/// that a record that is made is known to load.
pub fn save_with_encoding(
    config: &ServiceConfig,
    text: String,
    read_back: Option<Vec<String>>,
) -> (r: Result<StoreRecord, ConfigError>)
    ensures
        saved_view(r) == spec_save_with_encoding(config@, text@, read_back.deep_view()),
{
    match read_back {
        Some(read_back) => {
            if same_texts(&read_back, &config.arguments) {
                Ok(record_of(config, Some(text)))
            } else {
                Err(ConfigError::IoFailure)
            }
        },
        None => Err(ConfigError::IoFailure),
    }
}

/// Turns a configuration into the record that is written to the store.
/// The arguments are encoded and read back once, so that the record that
/// comes out is known to load back to the configuration's launch part.
pub fn save_service_config(config: &ServiceConfig) -> (r: Result<StoreRecord, ConfigError>)
    ensures
        saved_view(r) == spec_save(config@),
        config@.launch.arguments.len() == 0 ==> r is Ok,
        r matches Ok(record) ==> spec_load(config@.launch.name, true, Some(record@), true) == Ok::<
            LaunchConfigView,
            ConfigError,
        >(config@.launch),
{
    let r = if config.arguments.len() == 0 {
        Ok(record_of(config, None))
    } else {
        match encode_arguments(&config.arguments) {
            Ok(text) => {
                let read_back = match decode_arguments(text.as_str()) {
                    Ok(items) => Some(items),
                    Err(_) => None,
                };
                save_with_encoding(config, text, read_back)
            },
            Err(_) => Err(ConfigError::IoFailure),
        }
    };
    proof {
        if r is Ok {
            lemma_save_then_load(config@, r->Ok_0@);
        }
    }
    r
}

/// Finishes a load whose arguments were decoded as `arguments`, `None`
/// where they do not decode; for a record without an arguments value that
/// is the empty list.
pub fn load_with_arguments(
    service_name: &str,
    record: Option<&StoreRecord>,
    arguments: Option<Vec<String>>,
    executable_on_disk: bool,
) -> (r: Result<LaunchConfig, ConfigError>)
    ensures
        loaded_view(r) == spec_load_with_arguments(
            service_name@,
            optional_record_view(record),
            arguments.deep_view(),
            executable_on_disk,
        ),
{
    let record = match record {
        Some(record) => record,
        None => {
            return Err(ConfigError::NotFound);
        },
    };
    let executable_path = match &record.target_executable {
        Some(path) => clone_text(path),
        None => {
            return Err(ConfigError::Corrupt);
        },
    };
    let arguments = match arguments {
        Some(arguments) => arguments,
        None => {
            return Err(ConfigError::Corrupt);
        },
    };
    if !executable_on_disk {
        return Err(ConfigError::NotFound);
    }
    Ok(
        LaunchConfig {
            name: String::from_str(service_name),
            executable_path,
            arguments,
            working_directory: clone_optional_text(&record.working_directory),
            stdout_path: clone_optional_text(&record.stdout_path),
            stderr_path: clone_optional_text(&record.stderr_path),
        },
    )
}

/// Decodes the arguments of a record that may be missing: the empty list
/// for a record without an arguments value, nothing for no record and for
/// a value that does not decode.
fn stored_arguments(record: Option<&StoreRecord>) -> (arguments: Option<Vec<String>>)
    ensures
        arguments.deep_view() == spec_stored_arguments(optional_record_view(record)),
{
    match record {
        Some(record) => match &record.arguments {
            Some(text) => match decode_arguments(text.as_str()) {
                Ok(items) => Some(items),
                Err(_) => None,
            },
            None => {
                let none: Vec<String> = Vec::new();
                Some(none)
            },
        },
        None => None,
    }
}

/// Reads the configuration of `service_name`. `registered` says whether
/// the platform knows a service of that name; `record` is what the store
/// holds under the name, `None` where it holds nothing;
/// `executable_on_disk` says whether the recorded executable path names an
/// existing file.
pub fn load_service_config(
    service_name: &str,
    registered: bool,
    record: Option<&StoreRecord>,
    executable_on_disk: bool,
) -> (r: Result<LaunchConfig, ConfigError>)
    ensures
        loaded_view(r) == spec_load(
            service_name@,
            registered,
            optional_record_view(record),
            executable_on_disk,
        ),
{
    if !registered {
        return Err(ConfigError::NotFound);
    }
    let arguments = stored_arguments(record);
    load_with_arguments(service_name, record, arguments, executable_on_disk)
}

/// The path of the key under which the platform keeps the record of a
/// service.
pub open spec fn spec_parameters_key_path(service_name: Seq<char>) -> Seq<char> {
    "SYSTEM\\CurrentControlSet\\Services\\"@ + service_name + "\\Parameters"@
}

/// Builds the path of the key under which the platform keeps the record of
/// `service_name`.
pub fn parameters_key_path(service_name: &str) -> (path: String)
    ensures
        path@ == spec_parameters_key_path(service_name@),
{
    let mut path = String::from_str("SYSTEM\\CurrentControlSet\\Services\\");
    path.append(service_name);
    path.append("\\Parameters");
    path
}

impl StoreKey {
    /// The name under which the value is kept.
    pub open spec fn spec_name(self) -> Seq<char> {
        match self {
            StoreKey::TargetExecutable => "TargetExecutable"@,
            StoreKey::Arguments => "Arguments"@,
            StoreKey::WorkingDirectory => "WorkingDirectory"@,
            StoreKey::StdoutPath => "StdoutPath"@,
            StoreKey::StderrPath => "StderrPath"@,
        }
    }

    /// Whether a service cannot run without the value: the executable path
    /// and the arguments are required, the working directory and the
    /// redirect paths are not.
    pub open spec fn spec_is_required(self) -> bool {
        self == StoreKey::TargetExecutable || self == StoreKey::Arguments
    }

    /// The name under which the value is kept.
    pub fn name(self) -> (name: &'static str)
        ensures
            name@ == self.spec_name(),
    {
        match self {
            StoreKey::TargetExecutable => "TargetExecutable",
            StoreKey::Arguments => "Arguments",
            StoreKey::WorkingDirectory => "WorkingDirectory",
            StoreKey::StdoutPath => "StdoutPath",
            StoreKey::StderrPath => "StderrPath",
        }
    }

    /// Whether a service cannot run without the value.
    pub fn is_required(self) -> (required: bool)
        ensures
            required == self.spec_is_required(),
    {
        match self {
            StoreKey::TargetExecutable => true,
            StoreKey::Arguments => true,
            _ => false,
        }
    }
}

/// One step of a save: `value` is put under `key`, or, where `value` is
/// `None`, whatever is kept under `key` is removed.
#[derive(Debug, Clone)]
pub struct StoreWrite {
    pub key: StoreKey,
    pub value: Option<String>,
}

impl View for StoreWrite {
    type V = (StoreKey, Option<Seq<char>>);

    open spec fn view(&self) -> (StoreKey, Option<Seq<char>>) {
        (self.key, self.value.deep_view())
    }
}

/// One value as the platform takes it: its name and its text as wide
/// strings, and the size of the text in bytes, closing NUL included.
#[derive(Debug, Clone)]
pub struct RegistryValue {
    pub name: Vec<u16>,
    pub data: Vec<u16>,
    pub byte_len: u32,
}

/// One step of a save as the platform takes it.
#[derive(Debug, Clone)]
pub enum RegistryWrite {
    /// Put the value under its name.
    Put(RegistryValue),
    /// Delete the value of this name; a value that is not there counts as
    /// deleted.
    Remove { name: Vec<u16> },
}

/// The mathematical value of a `RegistryWrite`.
pub ghost enum RegistryWriteView {
    Put { name: Seq<u16>, data: Seq<u16>, byte_len: u32 },
    Remove { name: Seq<u16> },
}

impl View for RegistryWrite {
    type V = RegistryWriteView;

    open spec fn view(&self) -> RegistryWriteView {
        match self {
            RegistryWrite::Put(value) => RegistryWriteView::Put {
                name: value.name@,
                data: value.data@,
                byte_len: value.byte_len,
            },
            RegistryWrite::Remove { name } => RegistryWriteView::Remove { name: name@ },
        }
    }
}

/// Whether the platform can hold the text as a string value: the text has
/// no U+0000, which would end it early, and its wide string fits the
/// platform's 32-bit size.
pub open spec fn storable(text: Seq<char>) -> bool {
    without_nul(text) && 2 * wide_string(text).len() <= u32::MAX
}

/// What the platform is to do for a write: put the text under the key's
/// name, as a wide string with its size in bytes, or remove the value of
/// that name; nothing where the platform cannot hold the text.
pub open spec fn spec_registry_write(write: (StoreKey, Option<Seq<char>>)) -> Option<
    RegistryWriteView,
> {
    match write.1 {
        Some(text) => if storable(text) {
            Some(
                RegistryWriteView::Put {
                    name: wide_string(write.0.spec_name()),
                    data: wide_string(text),
                    byte_len: (2 * wide_string(text).len()) as u32,
                },
            )
        } else {
            None
        },
        None => Some(RegistryWriteView::Remove { name: wide_string(write.0.spec_name()) }),
    }
}

/// The view of a step that may be refused.
pub open spec fn registry_write_view(step: Option<RegistryWrite>) -> Option<RegistryWriteView> {
    match step {
        Some(step) => Some(step@),
        None => None,
    }
}

impl StoreWrite {
    /// The step as the platform takes it, or nothing where the platform
    /// cannot hold the text: a text with U+0000 or one that is too long is
    /// refused, and the write counts as failed.
    pub fn registry_write(&self) -> (step: Option<RegistryWrite>)
        ensures
            registry_write_view(step) == spec_registry_write(self@),
    {
        match &self.value {
            Some(text) => {
                let data = to_wstring(text.as_str());
                proof {
                    lemma_wide_read_back(text@);
                }
                if wcslen(data.as_slice()) != data.len() - 1 {
                    return None;
                }
                match wide_byte_len(data.as_slice()) {
                    Some(byte_len) => Some(
                        RegistryWrite::Put(
                            RegistryValue { name: to_wstring(self.key.name()), data, byte_len },
                        ),
                    ),
                    None => None,
                }
            },
            None => Some(RegistryWrite::Remove { name: to_wstring(self.key.name()) }),
        }
    }
}

/// The platform's status code for a call that succeeded.
pub const ERROR_SUCCESS: u32 = 0;

/// The platform's status code for a value or key that is not there.
pub const ERROR_FILE_NOT_FOUND: u32 = 2;

/// Whether a removal has done its work, by the status that the platform
/// gave for it: what was to be removed is gone, or was not there.
pub fn removal_done(status: u32) -> (done: bool)
    ensures
        done == (status == ERROR_SUCCESS || status == ERROR_FILE_NOT_FOUND),
{
    status == ERROR_SUCCESS || status == ERROR_FILE_NOT_FOUND
}

impl StoreRecordView {
    /// The record that holds nothing.
    pub open spec fn empty() -> StoreRecordView {
        StoreRecordView {
            target_executable: None,
            arguments: None,
            working_directory: None,
            stdout_path: None,
            stderr_path: None,
        }
    }

    /// The value kept under `key`.
    pub open spec fn value(self, key: StoreKey) -> Option<Seq<char>> {
        match key {
            StoreKey::TargetExecutable => self.target_executable,
            StoreKey::Arguments => self.arguments,
            StoreKey::WorkingDirectory => self.working_directory,
            StoreKey::StdoutPath => self.stdout_path,
            StoreKey::StderrPath => self.stderr_path,
        }
    }

    /// The record with exactly `value` under `key`, which is nothing where
    /// `value` is `None`, and everything else as it was.
    pub open spec fn with_value(self, key: StoreKey, value: Option<Seq<char>>) -> StoreRecordView {
        match key {
            StoreKey::TargetExecutable => StoreRecordView { target_executable: value, ..self },
            StoreKey::Arguments => StoreRecordView { arguments: value, ..self },
            StoreKey::WorkingDirectory => StoreRecordView { working_directory: value, ..self },
            StoreKey::StdoutPath => StoreRecordView { stdout_path: value, ..self },
            StoreKey::StderrPath => StoreRecordView { stderr_path: value, ..self },
        }
    }

    /// The record with `value` under `key` and everything else as it was.
    pub open spec fn with(self, key: StoreKey, value: Seq<char>) -> StoreRecordView {
        self.with_value(key, Some(value))
    }

    /// The writes that make the store hold the record: one for every key,
    /// the optional paths first, then the executable path, then the
    /// arguments. A value that the record does not hold is removed from
    /// the store, so that nothing of an earlier record stays behind.
    pub open spec fn writes(self) -> Seq<(StoreKey, Option<Seq<char>>)> {
        seq![
            (StoreKey::WorkingDirectory, self.working_directory),
            (StoreKey::StdoutPath, self.stdout_path),
            (StoreKey::StderrPath, self.stderr_path),
            (StoreKey::TargetExecutable, self.target_executable),
            (StoreKey::Arguments, self.arguments),
        ]
    }

    /// The record after the writes were made to it, in order.
    pub open spec fn written(self, writes: Seq<(StoreKey, Option<Seq<char>>)>) -> StoreRecordView
        decreases writes.len(),
    {
        if writes.len() == 0 {
            self
        } else {
            self.written(writes.drop_last()).with_value(writes.last().0, writes.last().1)
        }
    }

    /// The record after those of the writes were made to it, in order, that
    /// `made` marks; the others failed and changed nothing.
    pub open spec fn written_where(
        self,
        writes: Seq<(StoreKey, Option<Seq<char>>)>,
        made: Seq<bool>,
    ) -> StoreRecordView
        recommends
            made.len() == writes.len(),
        decreases writes.len(),
    {
        if writes.len() == 0 || made.len() != writes.len() {
            self
        } else {
            let before = self.written_where(writes.drop_last(), made.drop_last());
            if made.last() {
                before.with_value(writes.last().0, writes.last().1)
            } else {
                before
            }
        }
    }
}

/// Making one more write after others sets or removes just its value.
proof fn lemma_written_push(
    record: StoreRecordView,
    writes: Seq<(StoreKey, Option<Seq<char>>)>,
    write: (StoreKey, Option<Seq<char>>),
)
    ensures
        record.written(writes.push(write)) == record.written(writes).with_value(write.0, write.1),
{
    assert(writes.push(write).drop_last() =~= writes);
}

/// Making or failing one more write after others sets or removes its value
/// or changes nothing.
proof fn lemma_written_where_push(
    record: StoreRecordView,
    writes: Seq<(StoreKey, Option<Seq<char>>)>,
    made: Seq<bool>,
    write: (StoreKey, Option<Seq<char>>),
    done: bool,
)
    requires
        made.len() == writes.len(),
    ensures
        record.written_where(writes.push(write), made.push(done)) == (if done {
            record.written_where(writes, made).with_value(write.0, write.1)
        } else {
            record.written_where(writes, made)
        }),
{
    assert(writes.push(write).drop_last() =~= writes);
    assert(made.push(done).drop_last() =~= made);
}

/// Whatever the store held under the service's name before, after the
/// writes of a record were made it holds exactly that record: every value
/// of the record is there, and no value of an earlier record is left.
pub proof fn lemma_writes_rebuild_record(prior: StoreRecordView, record: StoreRecordView)
    ensures
        prior.written(record.writes()) == record,
{
    let w1 = (StoreKey::WorkingDirectory, record.working_directory);
    let w2 = (StoreKey::StdoutPath, record.stdout_path);
    let w3 = (StoreKey::StderrPath, record.stderr_path);
    let w4 = (StoreKey::TargetExecutable, record.target_executable);
    let w5 = (StoreKey::Arguments, record.arguments);
    let none = Seq::<(StoreKey, Option<Seq<char>>)>::empty();
    assert(record.writes() =~= none.push(w1).push(w2).push(w3).push(w4).push(w5));
    lemma_written_push(prior, none, w1);
    lemma_written_push(prior, none.push(w1), w2);
    lemma_written_push(prior, none.push(w1).push(w2), w3);
    lemma_written_push(prior, none.push(w1).push(w2).push(w3), w4);
    lemma_written_push(prior, none.push(w1).push(w2).push(w3).push(w4), w5);
}

/// Where every write of a record that sets or removes a required value was
/// made, the store holds the record's executable path and arguments,
/// whatever it held before and whichever of the other writes failed; where
/// all writes were made, it holds the record.
pub proof fn lemma_required_writes_suffice(
    prior: StoreRecordView,
    record: StoreRecordView,
    made: Seq<bool>,
)
    requires
        made.len() == record.writes().len(),
        forall|i: int|
            0 <= i < made.len() && record.writes()[i].0.spec_is_required() ==> #[trigger] made[i],
    ensures
        prior.written_where(record.writes(), made).target_executable == record.target_executable,
        prior.written_where(record.writes(), made).arguments == record.arguments,
        (forall|i: int| 0 <= i < made.len() ==> #[trigger] made[i]) ==> prior.written_where(
            record.writes(),
            made,
        ) == record,
{
    let w1 = (StoreKey::WorkingDirectory, record.working_directory);
    let w2 = (StoreKey::StdoutPath, record.stdout_path);
    let w3 = (StoreKey::StderrPath, record.stderr_path);
    let w4 = (StoreKey::TargetExecutable, record.target_executable);
    let w5 = (StoreKey::Arguments, record.arguments);
    let none = Seq::<(StoreKey, Option<Seq<char>>)>::empty();
    let no = Seq::<bool>::empty();
    assert(record.writes() =~= none.push(w1).push(w2).push(w3).push(w4).push(w5));
    assert(made =~= no.push(made[0]).push(made[1]).push(made[2]).push(made[3]).push(made[4]));
    assert(record.writes()[3].0.spec_is_required());
    assert(record.writes()[4].0.spec_is_required());
    assert(made[3] && made[4]);
    lemma_written_where_push(prior, none, no, w1, made[0]);
    lemma_written_where_push(prior, none.push(w1), no.push(made[0]), w2, made[1]);
    lemma_written_where_push(
        prior,
        none.push(w1).push(w2),
        no.push(made[0]).push(made[1]),
        w3,
        made[2],
    );
    lemma_written_where_push(
        prior,
        none.push(w1).push(w2).push(w3),
        no.push(made[0]).push(made[1]).push(made[2]),
        w4,
        made[3],
    );
    lemma_written_where_push(
        prior,
        none.push(w1).push(w2).push(w3).push(w4),
        no.push(made[0]).push(made[1]).push(made[2]).push(made[3]),
        w5,
        made[4],
    );
}

/// Saving over whatever was stored before and then loading gives the
/// configuration back: where a configuration is saved as `record` and the
/// writes of `record` are made to a store that held `prior` under the
/// service's name, loading from that store gives the configuration's launch
/// part, as long as the executable is on disk. No value of `prior` is
/// loaded in place of a field that the configuration leaves absent.
pub proof fn lemma_save_over_then_load(
    config: ServiceConfigView,
    record: StoreRecordView,
    prior: StoreRecordView,
)
    requires
        spec_save(config) == Ok::<StoreRecordView, ConfigError>(record),
    ensures
        prior.written(record.writes()) == record,
        spec_load(config.launch.name, true, Some(prior.written(record.writes())), true) == Ok::<
            LaunchConfigView,
            ConfigError,
        >(config.launch),
{
    lemma_writes_rebuild_record(prior, record);
    lemma_save_then_load(config, record);
}

/// The views of a list of writes.
pub open spec fn writes_view(writes: Seq<StoreWrite>) -> Seq<(StoreKey, Option<Seq<char>>)> {
    Seq::new(writes.len(), |i: int| writes[i]@)
}

impl StoreRecord {
    /// A record that holds nothing.
    pub fn new() -> (record: StoreRecord)
        ensures
            record@ == StoreRecordView::empty(),
    {
        StoreRecord {
            target_executable: None,
            arguments: None,
            working_directory: None,
            stdout_path: None,
            stderr_path: None,
        }
    }

    /// Puts exactly `value` under `key`, which removes what was there where
    /// `value` is `None`, and leaves everything else as it was.
    pub fn put(&mut self, key: StoreKey, value: Option<String>)
        ensures
            final(self)@ == old(self)@.with_value(key, value.deep_view()),
    {
        match key {
            StoreKey::TargetExecutable => {
                self.target_executable = value;
            },
            StoreKey::Arguments => {
                self.arguments = value;
            },
            StoreKey::WorkingDirectory => {
                self.working_directory = value;
            },
            StoreKey::StdoutPath => {
                self.stdout_path = value;
            },
            StoreKey::StderrPath => {
                self.stderr_path = value;
            },
        }
    }

    /// Puts `value` under `key` and leaves everything else as it was.
    pub fn set(&mut self, key: StoreKey, value: String)
        ensures
            final(self)@ == old(self)@.with(key, value@),
    {
        self.put(key, Some(value));
    }

    /// The writes that make the store hold the record, in the order in
    /// which they are to be made: a value that is there is set, a value
    /// that is not there is removed. Whatever the store held before, after
    /// these writes it holds exactly this record.
    pub fn writes(&self) -> (writes: Vec<StoreWrite>)
        ensures
            writes_view(writes@) == self@.writes(),
            forall|prior: StoreRecordView| #[trigger]
                prior.written(writes_view(writes@)) == self@,
    {
        let mut writes: Vec<StoreWrite> = Vec::new();
        writes.push(
            StoreWrite {
                key: StoreKey::WorkingDirectory,
                value: clone_optional_text(&self.working_directory),
            },
        );
        writes.push(
            StoreWrite { key: StoreKey::StdoutPath, value: clone_optional_text(&self.stdout_path) },
        );
        writes.push(
            StoreWrite { key: StoreKey::StderrPath, value: clone_optional_text(&self.stderr_path) },
        );
        writes.push(
            StoreWrite {
                key: StoreKey::TargetExecutable,
                value: clone_optional_text(&self.target_executable),
            },
        );
        writes.push(
            StoreWrite { key: StoreKey::Arguments, value: clone_optional_text(&self.arguments) },
        );
        assert(writes_view(writes@) =~= self@.writes());
        assert forall|prior: StoreRecordView| #[trigger]
            prior.written(writes_view(writes@)) == self@ by {
            lemma_writes_rebuild_record(prior, self@);
        }
        writes
    }
}

/// How the write of one value ended.
#[derive(Clone, Copy, Debug, PartialEq, Eq, Structural)]
pub struct WriteResult {
    pub key: StoreKey,
    pub written: bool,
}

/// Whether a required value is among the writes that failed.
pub open spec fn required_write_failed(results: Seq<WriteResult>) -> bool {
    exists|i: int| 0 <= i < results.len() && !results[i].written && results[i].key.spec_is_required()
}

/// The writes that were made, by their results.
pub open spec fn made_of(results: Seq<WriteResult>) -> Seq<bool> {
    Seq::new(results.len(), |i: int| results[i].written)
}

/// What a save that is judged good has stored: where the results are those
/// of the writes of `record`, one for one, and no required write failed,
/// the store holds the record's executable path and arguments, whatever it
/// held before; where no write failed at all, it holds the record.
pub proof fn lemma_judged_save(
    prior: StoreRecordView,
    record: StoreRecordView,
    results: Seq<WriteResult>,
)
    requires
        results.len() == record.writes().len(),
        forall|i: int| 0 <= i < results.len() ==> (#[trigger] results[i]).key == record.writes()[i].0,
        !required_write_failed(results),
    ensures
        prior.written_where(record.writes(), made_of(results)).target_executable
            == record.target_executable,
        prior.written_where(record.writes(), made_of(results)).arguments == record.arguments,
        all_written(results) ==> prior.written_where(record.writes(), made_of(results)) == record,
{
    let made = made_of(results);
    assert forall|i: int|
        0 <= i < made.len() && record.writes()[i].0.spec_is_required() implies #[trigger] made[i] by {
        assert(results[i].key.spec_is_required());
    }
    lemma_required_writes_suffice(prior, record, made);
    if all_written(results) {
        assert forall|i: int| 0 <= i < made.len() implies #[trigger] made[i] by {
            assert(results[i].written);
        }
    }
}

/// Whether every write was made.
pub open spec fn all_written(results: Seq<WriteResult>) -> bool {
    forall|i: int| 0 <= i < results.len() ==> (#[trigger] results[i]).written
}

/// How much of a configuration a save that has not failed has stored.
#[derive(Clone, Copy, Debug, PartialEq, Eq, Structural)]
pub enum Saved {
    /// Every write was made: the store holds the record and nothing else.
    Whole,
    /// The required values are stored, but a write of an optional value
    /// failed: that value may be missing from the store, or an earlier one
    /// may still be there.
    RequiredOnly,
}

/// The judgement of a save. It has failed where the store could not be
/// opened for the service, or where a required value could not be written
/// or removed. A failed write of an optional value does not make it fail,
/// but the save is whole only where every write was made.
pub open spec fn spec_save_outcome(store_opened: bool, results: Seq<WriteResult>) -> Result<
    Saved,
    ConfigError,
> {
    if !store_opened || required_write_failed(results) {
        Err(ConfigError::IoFailure)
    } else if all_written(results) {
        Ok(Saved::Whole)
    } else {
        Ok(Saved::RequiredOnly)
    }
}

/// Judges a save by whether the store could be opened for the service and
/// by the results of the writes.
pub fn save_outcome(store_opened: bool, results: &Vec<WriteResult>) -> (r: Result<
    Saved,
    ConfigError,
>)
    ensures
        r == spec_save_outcome(store_opened, results@),
{
    if !store_opened {
        return Err(ConfigError::IoFailure);
    }
    let mut whole = true;
    let mut i: usize = 0;
    while i < results.len()
        invariant
            i <= results.len(),
            forall|k: int| 0 <= k < i ==> results@[k].written || !results@[k].key.spec_is_required(),
            whole <==> forall|k: int| 0 <= k < i ==> (#[trigger] results@[k]).written,
        decreases results.len() - i,
    {
        if !results[i].written {
            if results[i].key.is_required() {
                return Err(ConfigError::IoFailure);
            }
            whole = false;
        }
        i = i + 1;
    }
    if whole {
        Ok(Saved::Whole)
    } else {
        Ok(Saved::RequiredOnly)
    }
}

/// A whole save over whatever was stored before, and then a load, gives
/// the configuration back: where a configuration is saved as `record`, the
/// results are those of the writes of `record`, one for one, and the save
/// is judged whole, loading from a store that held `prior` before gives the
/// configuration's launch part, as long as the executable is on disk.
pub proof fn lemma_whole_save_then_load(
    config: ServiceConfigView,
    record: StoreRecordView,
    prior: StoreRecordView,
    results: Seq<WriteResult>,
)
    requires
        spec_save(config) == Ok::<StoreRecordView, ConfigError>(record),
        results.len() == record.writes().len(),
        forall|i: int| 0 <= i < results.len() ==> (#[trigger] results[i]).key == record.writes()[i].0,
        spec_save_outcome(true, results) == Ok::<Saved, ConfigError>(Saved::Whole),
    ensures
        spec_load(
            config.launch.name,
            true,
            Some(prior.written_where(record.writes(), made_of(results))),
            true,
        ) == Ok::<LaunchConfigView, ConfigError>(config.launch),
{
    lemma_judged_save(prior, record, results);
    lemma_save_then_load(config, record);
}

/// The text of a value as the platform returned it: nothing where the value
/// is not of string type, else the wide string in `data` up to its NUL.
pub open spec fn spec_read_reg_string(value_type: u32, data: Seq<u16>) -> Option<Seq<char>> {
    if value_type == REG_SZ {
        Some(decode_utf16_lossy(data.take(wide_len(data) as int)))
    } else {
        None
    }
}

/// Reads the text of a value out of what the platform returned for it: its
/// type code and its data as UTF-16 code units.
pub fn read_reg_string(value_type: u32, data: &[u16]) -> (text: Option<String>)
    ensures
        text.deep_view() == spec_read_reg_string(value_type, data@),
{
    if value_type != REG_SZ {
        None
    } else {
        Some(wide_to_string(data))
    }
}

/// What is read back of a text that was stored as a string value: the text
/// up to its first U+0000, which is the whole text where it holds none.
pub proof fn lemma_registry_string_round_trip(text: Seq<char>)
    ensures
        spec_read_reg_string(REG_SZ, wide_string(text)) == Some(text_before_nul(text)),
        without_nul(text) ==> spec_read_reg_string(REG_SZ, wide_string(text)) == Some(text),
{
    lemma_wide_read_back(text);
}

/// A value that a write has put into the store is read back as it was
/// written: where the platform is handed `data` for a write of `text`,
/// reading `data` as a string value gives `text`. A text that would not be
/// read back so is not handed to the platform at all.
pub proof fn lemma_written_value_reads_back(write: (StoreKey, Option<Seq<char>>))
    requires
        spec_registry_write(write) matches Some(RegistryWriteView::Put { .. }),
    ensures
        write.1 is Some,
        spec_read_reg_string(REG_SZ, spec_registry_write(write)->0->data) == write.1,
{
    lemma_wide_read_back(write.1->0);
}

impl StoreRecord {
    /// Takes up a value as the platform returned it: a value of string type
    /// is put under `key`, a value of another type counts as absent and
    /// changes nothing.
    pub fn set_raw(&mut self, key: StoreKey, value_type: u32, data: &[u16])
        ensures
            final(self)@ == (match spec_read_reg_string(value_type, data@) {
                Some(text) => old(self)@.with(key, text),
                None => old(self)@,
            }),
    {
        match read_reg_string(value_type, data) {
            Some(text) => {
                self.set(key, text);
            },
            None => {},
        }
    }
}

} // verus!
