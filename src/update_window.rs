//! The window of a long-running package operation (update, install, remove):
//! idle, then running while output lines arrive, then completed with success
//! or failure, then closed.
use crate::text::{
    after_last, base_names, decimal, fit_line, fitted, string_views, strip_ansi, strip_ansi_spec,
    with_count,
};
use crate::types::UpdateMessage;
use vstd::prelude::*;

verus! {

/// A process for the caller to start: the program, its arguments, and the
/// line to show when it succeeds.
pub struct OperationCommand {
    pub program: String,
    pub args: Vec<String>,
    pub success_message: String,
}

/// The operation window. `output` is the log shown in it; `just_closed` asks
/// for one full redraw after it closed; `operation_type`, `was_successful`
/// and `cancelled_by_user` describe the operation that closed last.
pub struct SystemUpdateWindow {
    pub active: bool,
    pub output: Vec<String>,
    pub completed: bool,
    pub has_error: bool,
    pub just_closed: bool,
    pub title: String,
    pub cancelled_by_user: bool,
    pub operation_type: Option<String>,
    pub was_successful: bool,
}

/// The output lines that `ms` carries, in order.
pub open spec fn output_lines(ms: Seq<UpdateMessage>) -> Seq<Seq<char>>
    decreases ms.len(),
{
    if ms.len() == 0 {
        Seq::<Seq<char>>::empty()
    } else {
        let r = output_lines(ms.drop_last());
        match ms.last() {
            UpdateMessage::Output(l) => r.push(l@),
            UpdateMessage::Completed(_) => r,
        }
    }
}

/// The outcome that the last completion message of `ms` reports, if any.
pub open spec fn last_completion(ms: Seq<UpdateMessage>) -> Option<bool>
    decreases ms.len(),
{
    if ms.len() == 0 {
        None
    } else {
        match ms.last() {
            UpdateMessage::Completed(s) => Some(s),
            UpdateMessage::Output(_) => last_completion(ms.drop_last()),
        }
    }
}

/// The window as `start_command` leaves it.
pub open spec fn started(w: SystemUpdateWindow, initial: Seq<char>, title: Seq<char>) -> bool {
    &&& w.active
    &&& string_views(w.output@) == seq![initial]
    &&& !w.completed
    &&& !w.has_error
    &&& w.title@ == title
}

/// The packages of `ps` reduced to their names.
pub open spec fn names(ps: Seq<String>) -> Seq<Seq<char>> {
    string_views(ps).map_values(|p: Seq<char>| after_last(p, '/'))
}

/// A log line as the window shows it.
pub open spec fn shown_line(l: Seq<char>, width: usize) -> Seq<char> {
    fitted(strip_ansi_spec(l), width as nat)
}

impl SystemUpdateWindow {
    pub fn new() -> (r: Self)
        ensures
            !r.active,
            r.output@.len() == 0,
            !r.completed,
            !r.has_error,
            !r.just_closed,
            r.title@.len() == 0,
            !r.cancelled_by_user,
            r.operation_type is None,
            !r.was_successful,
    {
        SystemUpdateWindow {
            active: false,
            output: Vec::new(),
            completed: false,
            has_error: false,
            just_closed: false,
            title: String::new(),
            cancelled_by_user: false,
            operation_type: None,
            was_successful: false,
        }
    }

    /// Opens the window for a new operation and hands back the process to start.
    fn start_command(
        &mut self,
        program: String,
        args: Vec<String>,
        initial_message: String,
        success_message: String,
        title: String,
    ) -> (r: OperationCommand)
        ensures
            started(*final(self), initial_message@, title@),
            final(self).just_closed == old(self).just_closed,
            final(self).cancelled_by_user == old(self).cancelled_by_user,
            final(self).operation_type == old(self).operation_type,
            final(self).was_successful == old(self).was_successful,
            r.program == program,
            r.args == args,
            r.success_message == success_message,
    {
        self.active = true;
        let ghost im = initial_message@;
        self.output = vec![initial_message];
        proof {
            assert(string_views(self.output@) =~= seq![im]);
        }
        self.completed = false;
        self.has_error = false;
        self.title = title;
        OperationCommand { program, args, success_message }
    }

    /// Starts a full system upgrade through `pkexec pacman -Syu --noconfirm`.
    pub fn start_update(&mut self) -> (r: OperationCommand)
        ensures
            started(*final(self), "Starting system update..."@, "System Update"@),
            final(self).operation_type is Some,
            final(self).operation_type->0@ == "system_update"@,
            r.program@ == "pkexec"@,
            string_views(r.args@) == seq!["pacman"@, "-Syu"@, "--noconfirm"@],
            r.success_message@ == "\u{2713} System update completed successfully!"@,
    {
        self.operation_type = Some(String::from_str("system_update"));
        let args = vec![
            String::from_str("pacman"),
            String::from_str("-Syu"),
            String::from_str("--noconfirm"),
        ];
        proof {
            assert(string_views(args@) =~= seq![args@[0]@, args@[1]@, args@[2]@]);
        }
        self.start_command(
            String::from_str("pkexec"),
            args,
            String::from_str("Starting system update..."),
            String::from_str("\u{2713} System update completed successfully!"),
            String::from_str("System Update"),
        )
    }

    /// Starts installing `packages` (`repository/name` or bare names) from the
    /// official repositories through `pkexec pacman -S --noconfirm`.
    pub fn start_install_official(&mut self, packages: &Vec<String>) -> (r: OperationCommand)
        ensures
            started(
                *final(self),
                "Installing "@ + decimal(packages@.len() as nat) + " official package(s)..."@,
                "Installing Official Packages"@,
            ),
            final(self).operation_type is Some,
            final(self).operation_type->0@ == "install_official_"@ + decimal(
                packages@.len() as nat,
            ),
            r.program@ == "pkexec"@,
            string_views(r.args@) == seq!["pacman"@, "-S"@, "--noconfirm"@] + names(packages@),
            r.success_message@ == "\u{2713} Installation completed successfully!"@,
    {
        let kind = with_count("install_official_", packages.len(), "");
        proof {
            reveal_strlit("");
            assert(kind@ =~= "install_official_"@ + decimal(packages@.len() as nat));
        }
        self.operation_type = Some(kind);
        let mut args = vec![
            String::from_str("pacman"),
            String::from_str("-S"),
            String::from_str("--noconfirm"),
        ];
        let ghost head = string_views(args@);
        let mut rest = base_names(packages);
        let ghost tail = string_views(rest@);
        args.append(&mut rest);
        proof {
            assert(head =~= seq!["pacman"@, "-S"@, "--noconfirm"@]);
            assert(string_views(args@) =~= head + tail);
            assert(tail =~= names(packages@));
        }
        self.start_command(
            String::from_str("pkexec"),
            args,
            with_count("Installing ", packages.len(), " official package(s)..."),
            String::from_str("\u{2713} Installation completed successfully!"),
            String::from_str("Installing Official Packages"),
        )
    }

    /// Starts installing `packages` through `yay`, answering its questions
    /// with their defaults and removing build dependencies afterwards.
    pub fn start_install(&mut self, packages: &Vec<String>) -> (r: OperationCommand)
        ensures
            started(
                *final(self),
                "Installing "@ + decimal(packages@.len() as nat) + " package(s)..."@,
                "Installing Packages"@,
            ),
            final(self).operation_type == old(self).operation_type,
            r.program@ == "yay"@,
            string_views(r.args@) == seq![
                "-S"@,
                "--noconfirm"@,
                "--answerdiff"@,
                "None"@,
                "--answerclean"@,
                "None"@,
                "--answeredit"@,
                "None"@,
                "--answerupgrade"@,
                "None"@,
                "--removemake"@,
            ] + names(packages@),
            r.success_message@ == "\u{2713} Installation completed successfully!"@,
    {
        let mut args = vec![
            String::from_str("-S"),
            String::from_str("--noconfirm"),
            String::from_str("--answerdiff"),
            String::from_str("None"),
            String::from_str("--answerclean"),
            String::from_str("None"),
            String::from_str("--answeredit"),
            String::from_str("None"),
            String::from_str("--answerupgrade"),
            String::from_str("None"),
            String::from_str("--removemake"),
        ];
        let ghost head = string_views(args@);
        let mut rest = base_names(packages);
        let ghost tail = string_views(rest@);
        args.append(&mut rest);
        proof {
            assert(head =~= seq![
                "-S"@,
                "--noconfirm"@,
                "--answerdiff"@,
                "None"@,
                "--answerclean"@,
                "None"@,
                "--answeredit"@,
                "None"@,
                "--answerupgrade"@,
                "None"@,
                "--removemake"@,
            ]);
            assert(string_views(args@) =~= head + tail);
            assert(tail =~= names(packages@));
        }
        self.start_command(
            String::from_str("yay"),
            args,
            with_count("Installing ", packages.len(), " package(s)..."),
            String::from_str("\u{2713} Installation completed successfully!"),
            String::from_str("Installing Packages"),
        )
    }

    /// Starts removing `packages`, with their unneeded dependencies, through
    /// `pkexec pacman -Rns --noconfirm`.
    pub fn start_remove(&mut self, packages: &Vec<String>) -> (r: OperationCommand)
        ensures
            started(
                *final(self),
                "Removing "@ + decimal(packages@.len() as nat) + " package(s)..."@,
                "Removing Packages"@,
            ),
            final(self).operation_type is Some,
            final(self).operation_type->0@ == "remove_"@ + decimal(packages@.len() as nat),
            r.program@ == "pkexec"@,
            string_views(r.args@) == seq!["pacman"@, "-Rns"@, "--noconfirm"@] + names(packages@),
            r.success_message@ == "\u{2713} Removal completed successfully!"@,
    {
        let kind = with_count("remove_", packages.len(), "");
        proof {
            reveal_strlit("");
            assert(kind@ =~= "remove_"@ + decimal(packages@.len() as nat));
        }
        self.operation_type = Some(kind);
        let mut args = vec![
            String::from_str("pacman"),
            String::from_str("-Rns"),
            String::from_str("--noconfirm"),
        ];
        let ghost head = string_views(args@);
        let mut rest = base_names(packages);
        let ghost tail = string_views(rest@);
        args.append(&mut rest);
        proof {
            assert(head =~= seq!["pacman"@, "-Rns"@, "--noconfirm"@]);
            assert(string_views(args@) =~= head + tail);
            assert(tail =~= names(packages@));
        }
        self.start_command(
            String::from_str("pkexec"),
            args,
            with_count("Removing ", packages.len(), " package(s)..."),
            String::from_str("\u{2713} Removal completed successfully!"),
            String::from_str("Removing Packages"),
        )
    }

    /// Takes in the messages that the running operation sent since the last
    /// call: output lines are appended, a completion records its outcome.
    pub fn check_updates(&mut self, messages: &Vec<UpdateMessage>)
        ensures
            string_views(final(self).output@) == string_views(old(self).output@) + output_lines(messages@),
            final(self).completed == (old(self).completed || last_completion(messages@) is Some),
            final(self).has_error == match last_completion(messages@) {
                Some(s) => !s,
                None => old(self).has_error,
            },
            final(self).active == old(self).active,
            final(self).just_closed == old(self).just_closed,
            final(self).title == old(self).title,
    {
        let mut i: usize = 0;
        while i < messages.len()
            invariant
                i <= messages@.len(),
                string_views(self.output@) == string_views(old(self).output@) + output_lines(
                    messages@.subrange(0, i as int),
                ),
                self.completed == (old(self).completed || last_completion(
                    messages@.subrange(0, i as int),
                ) is Some),
                self.has_error == match last_completion(messages@.subrange(0, i as int)) {
                    Some(s) => !s,
                    None => old(self).has_error,
                },
                self.active == old(self).active,
                self.just_closed == old(self).just_closed,
                self.title == old(self).title,
            decreases messages@.len() - i,
        {
            proof {
                assert(messages@.subrange(0, i as int + 1).drop_last() =~= messages@.subrange(
                    0,
                    i as int,
                ));
            }
            match &messages[i] {
                UpdateMessage::Output(line) => {
                    let l = line.clone();
                    proof {
                        assert(string_views(self.output@.push(l)) =~= string_views(self.output@).push(l@));
                    }
                    self.output.push(l);
                },
                UpdateMessage::Completed(success) => {
                    self.completed = true;
                    self.has_error = !*success;
                },
            }
            i += 1;
        }
        proof {
            assert(messages@.subrange(0, i as int) =~= messages@);
        }
    }

    /// The log lines that fit a pane of `width` columns and `height` rows:
    /// the last `height` lines, without escape sequences, each cut to the
    /// width.
    pub fn visible_output(&self, width: usize, height: usize) -> (r: Vec<String>)
        ensures
            string_views(r@) == ({
                let all = string_views(self.output@);
                let start = if all.len() > height {
                    all.len() - height
                } else {
                    0
                };
                all.subrange(start as int, all.len() as int).map_values(
                    |l: Seq<char>| shown_line(l, width),
                )
            }),
    {
        let n = self.output.len();
        let start = if n > height {
            n - height
        } else {
            0
        };
        let mut out: Vec<String> = Vec::new();
        let mut i: usize = start;
        while i < n
            invariant
                n == self.output@.len(),
                start <= i <= n,
                string_views(out@) == string_views(self.output@).subrange(start as int, i as int).map_values(|l: Seq<char>| shown_line(l, width)),
            decreases n - i,
        {
            let clean = strip_ansi(self.output[i].as_str());
            let line = fit_line(clean.as_str(), width);
            proof {
                assert(string_views(self.output@)[i as int] == self.output@[i as int]@);
                assert(line@ == shown_line(self.output@[i as int]@, width));
                assert(string_views(out@.push(line)) =~= string_views(out@).push(line@));
                assert(string_views(self.output@).subrange(start as int, i as int + 1).map_values(|l: Seq<char>| shown_line(l, width))
                    =~= string_views(self.output@).subrange(start as int, i as int).map_values(|l: Seq<char>| shown_line(l, width)).push(
                    shown_line(string_views(self.output@)[i as int], width),
                ));
            }
            out.push(line);
            i += 1;
        }
        out
    }

    /// The operation succeeded: the window closes by itself.
    pub fn should_auto_close(&self) -> (r: bool)
        ensures
            r == (self.completed && !self.has_error),
    {
        self.completed && !self.has_error
    }

    /// Closes the window, keeping whether the operation succeeded and whether
    /// the user dismissed it, and asks for a redraw.
    pub fn close(&mut self, cancelled_by_user: bool)
        ensures
            final(self).was_successful == (old(self).completed && !old(self).has_error),
            !final(self).active,
            final(self).output@.len() == 0,
            !final(self).completed,
            !final(self).has_error,
            final(self).just_closed,
            final(self).cancelled_by_user == cancelled_by_user,
            final(self).operation_type == old(self).operation_type,
            final(self).title == old(self).title,
    {
        self.was_successful = self.completed && !self.has_error;
        self.active = false;
        self.output = Vec::new();
        self.completed = false;
        self.has_error = false;
        self.just_closed = true;
        self.cancelled_by_user = cancelled_by_user;
    }

    /// Forgets the operation that closed last, once the redraw was done.
    pub fn clear_just_closed_flag(&mut self)
        ensures
            !final(self).just_closed,
            !final(self).cancelled_by_user,
            final(self).operation_type is None,
            !final(self).was_successful,
            final(self).active == old(self).active,
            final(self).output == old(self).output,
            final(self).completed == old(self).completed,
            final(self).has_error == old(self).has_error,
            final(self).title == old(self).title,
    {
        self.just_closed = false;
        self.cancelled_by_user = false;
        self.operation_type = None;
        self.was_successful = false;
    }
}

} // verus!
