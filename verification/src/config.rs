//! The launch configuration of a service: what is installed, and what the
//! host needs to start the child.

use vstd::prelude::*;

verus! {

/// A copy of a text.
pub fn clone_text(text: &String) -> (copy: String)
    ensures
        copy@ == text@,
{
    text.clone()
}

/// A copy of an optional text; an absent text stays absent.
pub fn clone_optional_text(text: &Option<String>) -> (copy: Option<String>)
    ensures
        copy.deep_view() == text.deep_view(),
{
    match text {
        Some(t) => Some(t.clone()),
        None => None,
    }
}

/// A copy of a list of texts, in the same order.
pub fn clone_texts(texts: &Vec<String>) -> (copy: Vec<String>)
    ensures
        copy.deep_view() == texts.deep_view(),
{
    let mut copy: Vec<String> = Vec::new();
    let mut i: usize = 0;
    while i < texts.len()
        invariant
            i <= texts.len(),
            copy.len() == i,
            forall|k: int| 0 <= k < i ==> copy@[k]@ == texts@[k]@,
        decreases texts.len() - i,
    {
        copy.push(texts[i].clone());
        i = i + 1;
    }
    copy
}

/// Whether two lists hold the same texts in the same order.
pub fn same_texts(first: &Vec<String>, second: &Vec<String>) -> (same: bool)
    ensures
        same == (first.deep_view() == second.deep_view()),
{
    if first.len() != second.len() {
        assert(first.deep_view().len() != second.deep_view().len());
        return false;
    }
    let mut i: usize = 0;
    while i < first.len()
        invariant
            i <= first.len(),
            first.len() == second.len(),
            forall|k: int| 0 <= k < i ==> first@[k]@ == second@[k]@,
        decreases first.len() - i,
    {
        if first[i] != second[i] {
            assert(first.deep_view()[i as int] != second.deep_view()[i as int]);
            return false;
        }
        i = i + 1;
    }
    assert(first.deep_view() =~= second.deep_view());
    true
}

/// A service as it is installed: its names for the platform, and the child
/// process that it stands for.
#[derive(Debug, Clone)]
pub struct ServiceConfig {
    /// The unique key of the service.
    pub name: String,
    pub display_name: String,
    pub description: String,
    pub executable_path: String,
    pub arguments: Vec<String>,
    pub working_directory: Option<String>,
    /// Where the child's standard output is appended, if anywhere.
    pub stdout_path: Option<String>,
    /// Where the child's standard error is appended, if anywhere.
    pub stderr_path: Option<String>,
}

/// What the host needs to run a service: the part of the configuration
/// that is persisted and loaded again.
#[derive(Debug, Clone)]
pub struct LaunchConfig {
    pub name: String,
    pub executable_path: String,
    pub arguments: Vec<String>,
    pub working_directory: Option<String>,
    pub stdout_path: Option<String>,
    pub stderr_path: Option<String>,
}

/// The mathematical value of a `LaunchConfig`.
pub ghost struct LaunchConfigView {
    pub name: Seq<char>,
    pub executable_path: Seq<char>,
    pub arguments: Seq<Seq<char>>,
    pub working_directory: Option<Seq<char>>,
    pub stdout_path: Option<Seq<char>>,
    pub stderr_path: Option<Seq<char>>,
}

/// The mathematical value of a `ServiceConfig`.
pub ghost struct ServiceConfigView {
    pub display_name: Seq<char>,
    pub description: Seq<char>,
    pub launch: LaunchConfigView,
}

impl View for LaunchConfig {
    type V = LaunchConfigView;

    open spec fn view(&self) -> LaunchConfigView {
        LaunchConfigView {
            name: self.name@,
            executable_path: self.executable_path@,
            arguments: self.arguments.deep_view(),
            working_directory: self.working_directory.deep_view(),
            stdout_path: self.stdout_path.deep_view(),
            stderr_path: self.stderr_path.deep_view(),
        }
    }
}

impl View for ServiceConfig {
    type V = ServiceConfigView;

    open spec fn view(&self) -> ServiceConfigView {
        ServiceConfigView {
            display_name: self.display_name@,
            description: self.description@,
            launch: LaunchConfigView {
                name: self.name@,
                executable_path: self.executable_path@,
                arguments: self.arguments.deep_view(),
                working_directory: self.working_directory.deep_view(),
                stdout_path: self.stdout_path.deep_view(),
                stderr_path: self.stderr_path.deep_view(),
            },
        }
    }
}

impl ServiceConfig {
    /// The part of the configuration that the host runs on.
    pub fn launch_config(&self) -> (launch: LaunchConfig)
        ensures
            launch@ == self@.launch,
    {
        LaunchConfig {
            name: clone_text(&self.name),
            executable_path: clone_text(&self.executable_path),
            arguments: clone_texts(&self.arguments),
            working_directory: clone_optional_text(&self.working_directory),
            stdout_path: clone_optional_text(&self.stdout_path),
            stderr_path: clone_optional_text(&self.stderr_path),
        }
    }
}

} // verus!
