//! The sidecar: the helper executable bundled with the application, and the
//! command line it is launched with.
use vstd::prelude::*;

verus! {

/// Name under which the sidecar is bundled.
pub open spec fn sidecar_program() -> Seq<char> {
    "brain"@
}

/// Address the sidecar is told to listen on.
pub open spec fn sidecar_host() -> Seq<char> {
    "127.0.0.1"@
}

/// Port the sidecar is told to listen on, in decimal.
pub open spec fn sidecar_port() -> Seq<char> {
    "8000"@
}

/// The sidecar's command-line arguments: its host and its port.
pub open spec fn sidecar_args() -> Seq<Seq<char>> {
    seq!["--host"@, sidecar_host(), "--port"@, sidecar_port()]
}

/// A program to launch and the arguments to hand it.
pub struct SidecarCommand {
    pub program: String,
    pub args: Vec<String>,
}

/// Mathematical model of a [`SidecarCommand`].
pub struct SidecarCommandView {
    pub program: Seq<char>,
    pub args: Seq<Seq<char>>,
}

impl View for SidecarCommand {
    type V = SidecarCommandView;

    open spec fn view(&self) -> SidecarCommandView {
        SidecarCommandView { program: self.program@, args: self.args@.map_values(|a: String| a@) }
    }
}

/// The command that launches the bundled sidecar on the local host.
pub open spec fn sidecar_command_spec() -> SidecarCommandView {
    SidecarCommandView { program: sidecar_program(), args: sidecar_args() }
}

impl SidecarCommand {
    /// Builds the command that launches the bundled sidecar:
    /// `brain --host 127.0.0.1 --port 8000`.
    pub fn brain() -> (r: SidecarCommand)
        ensures
            r@ == sidecar_command_spec(),
    {
        let mut args: Vec<String> = Vec::new();
        args.push("--host".to_owned());
        args.push("127.0.0.1".to_owned());
        args.push("--port".to_owned());
        args.push("8000".to_owned());
        let r = SidecarCommand { program: "brain".to_owned(), args };
        assert(r@.args =~= sidecar_args());
        r
    }
}

} // verus!
