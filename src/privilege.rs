use vstd::prelude::*;

verus! {

/// An external tool that re-runs the process with elevated privilege.
#[derive(Clone, Copy, Debug, PartialEq, Eq, Structural)]
pub enum Mechanism {
    Sudo,
    Doas,
    Pkexec,
}

/// Where the process stands on privilege. Escalating replaces the process:
/// everything held in memory before it is discarded, and the program starts
/// again from the top under the new identity.
#[derive(Clone, Copy, Debug, PartialEq, Eq, Structural)]
pub enum Privilege {
    /// Already running as root: mutating calls may proceed.
    Elevated,
    /// The process must be re-run through this mechanism.
    Escalating(Mechanism),
}

/// No escalation mechanism is installed.
#[derive(Clone, Copy, Debug, PartialEq, Eq, Structural)]
pub enum PermissionError {
    NoMechanism,
}

/// How privilege is reached, from what was observed: root needs
/// nothing; otherwise the first installed tool in the order sudo, doas,
/// pkexec is used.
pub open spec fn spec_choose(root: bool, sudo: bool, doas: bool, pkexec: bool) -> Result<
    Privilege,
    PermissionError,
> {
    if root {
        Ok(Privilege::Elevated)
    } else if sudo {
        Ok(Privilege::Escalating(Mechanism::Sudo))
    } else if doas {
        Ok(Privilege::Escalating(Mechanism::Doas))
    } else if pkexec {
        Ok(Privilege::Escalating(Mechanism::Pkexec))
    } else {
        Err(PermissionError::NoMechanism)
    }
}

/// Decides how to reach the elevated state from whether the process runs as
/// root and which tools are installed.
pub fn choose_escalation(root: bool, sudo: bool, doas: bool, pkexec: bool) -> (r: Result<
    Privilege,
    PermissionError,
>)
    ensures
        r == spec_choose(root, sudo, doas, pkexec),
{
    if root {
        Ok(Privilege::Elevated)
    } else if sudo {
        Ok(Privilege::Escalating(Mechanism::Sudo))
    } else if doas {
        Ok(Privilege::Escalating(Mechanism::Doas))
    } else if pkexec {
        Ok(Privilege::Escalating(Mechanism::Pkexec))
    } else {
        Err(PermissionError::NoMechanism)
    }
}

/// Sudo, when present, is chosen ahead of doas and pkexec, present or not.
/// With none of the three present no escalation is possible.
pub proof fn lemma_primary_first(sudo: bool, doas: bool, pkexec: bool)
    ensures
        sudo ==> spec_choose(false, sudo, doas, pkexec) == Ok::<Privilege, PermissionError>(
            Privilege::Escalating(Mechanism::Sudo),
        ),
        !sudo && !doas && !pkexec ==> spec_choose(false, sudo, doas, pkexec) == Err::<
            Privilege,
            PermissionError,
        >(PermissionError::NoMechanism),
{
}

/// The command name of a tool.
pub open spec fn tool_name(m: Mechanism) -> Seq<char> {
    match m {
        Mechanism::Sudo => "sudo"@,
        Mechanism::Doas => "doas"@,
        Mechanism::Pkexec => "pkexec"@,
    }
}

impl Mechanism {
    /// The command name of this tool.
    pub fn name(&self) -> (r: &'static str)
        ensures
            r@ == tool_name(*self),
    {
        match self {
            Mechanism::Sudo => "sudo",
            Mechanism::Doas => "doas",
            Mechanism::Pkexec => "pkexec",
        }
    }
}

/// The message for a missing escalation mechanism.
pub open spec fn no_mechanism_text() -> Seq<char> {
    "Please install sudo, doas or pkexec and try again. Alternatively, run the program as root."@
}

impl PermissionError {
    /// The message that describes this error; it names every tool tried.
    pub fn message(&self) -> (r: String)
        ensures
            r@ == no_mechanism_text(),
    {
        String::from_str(
            "Please install sudo, doas or pkexec and try again. Alternatively, run the program as root.",
        )
    }
}

/// Relies on sudo2::running_as_root: whether the real and effective user
/// ids are both root. It reads the process identity, so nothing is promised.
#[verifier::external_body]
fn running_as_root() -> bool {
    sudo2::running_as_root()
}

/// Relies on which::which: whether an executable of this name is found on
/// the search path. It reads the file system, so nothing is promised.
#[verifier::external_body]
fn tool_present(name: &str) -> bool {
    which::which(name).is_ok()
}

/// Observes the process identity and the installed tools, probing them in
/// preference order and no further than the first one found, and decides
/// how to reach the elevated state.
pub fn ensure_privileged() -> (r: Result<Privilege, PermissionError>)
    ensures
        exists|root: bool, sudo: bool, doas: bool, pkexec: bool|
            r == spec_choose(root, sudo, doas, pkexec),
{
    let root = running_as_root();
    let sudo = !root && tool_present(Mechanism::Sudo.name());
    let doas = !root && !sudo && tool_present(Mechanism::Doas.name());
    let pkexec = !root && !sudo && !doas && tool_present(Mechanism::Pkexec.name());
    choose_escalation(root, sudo, doas, pkexec)
}

} // verus!
