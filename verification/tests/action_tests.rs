use comrad::lookup::Lookup;
use comrad::mode::{Action, Event, Invocation, Terminal};

fn invocation(program: &str, arg: &str, terminal: Terminal) -> Option<Invocation> {
    Some(Invocation { program: program.to_string(), args: vec![arg.to_string()], terminal })
}

fn some_output() -> Lookup {
    Lookup::Finished { success: true, stdout: b"out".to_vec(), stderr: b"err".to_vec() }
}

#[test]
fn nothing_runs_no_program() {
    assert_eq!(Action::Nothing.invocation(), None);
}

#[test]
fn help_runs_the_command_with_the_help_flag() {
    assert_eq!(
        Action::FetchHelp("ls".to_string()).invocation(),
        invocation("ls", "--help", Terminal::Captured)
    );
}

#[test]
fn the_manual_is_read_by_man() {
    assert_eq!(
        Action::FetchMan("ls".to_string()).invocation(),
        invocation("man", "ls", Terminal::Captured)
    );
    assert_eq!(
        Action::EnterMan("ls".to_string()).invocation(),
        invocation("man", "ls", Terminal::HandedOver)
    );
}

#[test]
fn the_quick_reference_is_read_by_tldr() {
    assert_eq!(Action::ListTldrCache.invocation(), invocation("tldr", "-l", Terminal::Captured));
    assert_eq!(
        Action::FetchTldr("tar".to_string()).invocation(),
        invocation("tldr", "tar", Terminal::Captured)
    );
    assert_eq!(
        Action::PopulateTldrCache("tar".to_string()).invocation(),
        invocation("tldr", "tar", Terminal::HandedOverUntilEnter)
    );
}

#[test]
fn each_action_is_answered_by_its_own_event() {
    let ls = || "ls".to_string();
    assert_eq!(Action::FetchHelp(ls()).reply(some_output()), Event::HelpOutput(some_output()));
    assert_eq!(Action::FetchMan(ls()).reply(some_output()), Event::ManOutput(some_output()));
    assert_eq!(Action::ListTldrCache.reply(Lookup::NotRun), Event::TldrListing(Lookup::NotRun));
    assert_eq!(Action::FetchTldr(ls()).reply(some_output()), Event::TldrOutput(some_output()));
    assert_eq!(Action::EnterMan(ls()).reply(some_output()), Event::PagerExited);
    assert_eq!(Action::PopulateTldrCache(ls()).reply(some_output()), Event::Other);
    assert_eq!(Action::Nothing.reply(some_output()), Event::Other);
}
