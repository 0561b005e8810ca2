use comrad::app::App;
use comrad::lookup::{Lookup, LookupKind, NO_HELP, NO_MANUAL, NO_TLDR, UNREADABLE_OUTPUT};
use comrad::mode::{Action, Event, Key};
use comrad::render::{
    Extent, Footer, Frame, Hint, Overlay, OverlayKind, Placement, CONFIRM_PROMPT, CONFIRM_TITLE,
    FILTER_TITLE, HELP_TEXT, HELP_TITLE, TITLE,
};

fn browser() -> App {
    App::new(&vec!["ls".to_string(), "Bash".to_string(), "cat".to_string()])
}

fn rows(list: &[&str]) -> Vec<String> {
    list.iter().map(|s| s.to_string()).collect()
}

fn stdout(bytes: &[u8]) -> Lookup {
    Lookup::Finished { success: true, stdout: bytes.to_vec(), stderr: Vec::new() }
}

#[test]
fn the_first_frame_lists_the_catalog() {
    let app = browser();
    assert_eq!(
        app.render(),
        Frame {
            title: " COMRAD ",
            rows: rows(&["Bash", "cat", "ls"]),
            highlighted: Some(0),
            footer: Footer::General,
            overlay: None,
        }
    );
    assert_eq!(app.rows(), rows(&["Bash", "cat", "ls"]));
    assert_eq!(TITLE, " COMRAD ");
}

#[test]
fn an_empty_catalog_gives_an_empty_list_without_highlight() {
    let app = App::new(&Vec::new());
    assert_eq!(
        app.render(),
        Frame {
            title: TITLE,
            rows: Vec::new(),
            highlighted: None,
            footer: Footer::General,
            overlay: None,
        }
    );
}

#[test]
fn the_highlight_follows_the_selection() {
    let mut app = browser();
    app.handle_key_event(Key::Char('G'));
    assert_eq!(app.render().highlighted, Some(2));
    app.handle_key_event(Key::Char('k'));
    assert_eq!(app.render().highlighted, Some(1));
}

#[test]
fn the_filter_box_shows_the_live_query() {
    let mut app = browser();
    app.handle_key_event(Key::Char('/'));
    app.handle_key_event(Key::Char('a'));
    let frame = app.render();
    assert_eq!(frame.rows, rows(&["Bash", "cat"]));
    assert_eq!(frame.highlighted, Some(0));
    assert_eq!(frame.footer, Footer::Filter);
    assert_eq!(
        frame.overlay,
        Some(Overlay {
            kind: OverlayKind::Filter,
            title: " Filter ".to_string(),
            body: "a".to_string(),
        })
    );
    assert_eq!(app.render_filter_popup(), frame.overlay);
    assert_eq!(FILTER_TITLE, " Filter ");
    app.handle_key_event(Key::Enter);
    let frame = app.render();
    assert_eq!(frame.rows, rows(&["Bash", "cat"]));
    assert_eq!(frame.footer, Footer::General);
    assert_eq!(frame.overlay, None);
    assert_eq!(app.render_filter_popup(), None);
}

#[test]
fn a_query_without_match_gives_an_empty_list() {
    let mut app = browser();
    for c in "/zz".chars() {
        app.handle_key_event(Key::Char(c));
    }
    let frame = app.render();
    assert_eq!(frame.rows, Vec::<String>::new());
    assert_eq!(frame.highlighted, None);
}

#[test]
fn empty_help_output_is_shown_as_the_fixed_message() {
    let mut app = browser();
    assert_eq!(app.handle_key_event(Key::Char('h')), Action::FetchHelp("Bash".to_string()));
    assert_eq!(app.handle_event(&Event::HelpOutput(stdout(b""))), Action::Nothing);
    let overlay = app.render().overlay;
    assert_eq!(
        overlay,
        Some(Overlay {
            kind: OverlayKind::CommandHelp,
            title: "Bash".to_string(),
            body: "No help implemented for this command".to_string(),
        })
    );
    assert_eq!(app.render_help(), overlay);
    assert_eq!(NO_HELP, "No help implemented for this command");
}

#[test]
fn help_output_is_shown_under_the_name_of_the_command() {
    let mut app = browser();
    app.handle_key_event(Key::Char('j'));
    app.handle_key_event(Key::Char('h'));
    app.receive_output(LookupKind::Help, &stdout(b"Usage: cat [FILE]..."));
    let frame = app.render();
    assert_eq!(frame.rows, rows(&["Bash", "cat", "ls"]));
    assert_eq!(frame.highlighted, Some(1));
    assert_eq!(frame.footer, Footer::General);
    assert_eq!(
        frame.overlay,
        Some(Overlay {
            kind: OverlayKind::CommandHelp,
            title: "cat".to_string(),
            body: "Usage: cat [FILE]...".to_string(),
        })
    );
}

#[test]
fn help_output_that_is_no_text_is_shown_as_the_fixed_message() {
    let mut app = browser();
    app.handle_key_event(Key::Char('h'));
    app.receive_output(LookupKind::Help, &stdout(&[0xfe, 0xff]));
    assert_eq!(app.render().overlay.unwrap().body, UNREADABLE_OUTPUT);
}

#[test]
fn the_manual_overlay_shows_the_page_or_the_fixed_message() {
    let mut app = browser();
    app.handle_key_event(Key::Char('m'));
    assert_eq!(
        app.render_man_help(),
        Some(Overlay {
            kind: OverlayKind::Man,
            title: "Bash".to_string(),
            body: NO_MANUAL.to_string(),
        })
    );
    app.receive_output(LookupKind::Man, &stdout(b"BASH(1)"));
    assert_eq!(
        app.render().overlay,
        Some(Overlay {
            kind: OverlayKind::Man,
            title: "Bash".to_string(),
            body: "BASH(1)".to_string(),
        })
    );
    app.handle_key_event(Key::Esc);
    assert_eq!(app.render_man_help(), None);
    assert_eq!(app.render().overlay, None);
}

#[test]
fn the_quick_reference_overlay_shows_the_page_or_the_fixed_message() {
    let mut app = browser();
    app.handle_key_event(Key::Char('t'));
    app.receive_listing(&stdout(b"Bash"));
    app.receive_output(LookupKind::Tldr, &stdout(b""));
    assert_eq!(
        app.render_tldr_help(),
        Some(Overlay {
            kind: OverlayKind::Tldr,
            title: "Bash".to_string(),
            body: NO_TLDR.to_string(),
        })
    );
    app.receive_output(LookupKind::Tldr, &stdout(b"bash: the shell"));
    assert_eq!(
        app.render().overlay,
        Some(Overlay {
            kind: OverlayKind::Tldr,
            title: "Bash".to_string(),
            body: "bash: the shell".to_string(),
        })
    );
}

#[test]
fn the_prompt_takes_the_place_of_the_quick_reference_overlay() {
    let mut app = browser();
    app.handle_key_event(Key::Char('t'));
    app.receive_listing(&stdout(b"cat\nls\n"));
    let frame = app.render();
    assert_eq!(
        frame.overlay,
        Some(Overlay {
            kind: OverlayKind::Confirm,
            title: " Warning ".to_string(),
            body: " The command is not in the TLDR cache. \n Press Y to add it to the cache \
                   (it might take a while)"
                .to_string(),
        })
    );
    assert_eq!(app.render_add_to_tldr_cache(), frame.overlay);
    assert_eq!(app.render_tldr_help(), None);
    assert_eq!(CONFIRM_TITLE, " Warning ");
    assert_eq!(frame.overlay.unwrap().body, CONFIRM_PROMPT);
}

#[test]
fn the_application_help_lists_the_key_bindings() {
    let mut app = App::new(&Vec::new());
    assert_eq!(app.render_comrad_help(), None);
    app.handle_key_event(Key::Char('H'));
    let overlay = app.render().overlay.unwrap();
    assert_eq!(overlay.kind, OverlayKind::AppHelp);
    assert_eq!(overlay.title, HELP_TITLE);
    assert_eq!(overlay.title, "Comrad Help");
    assert_eq!(overlay.body, HELP_TEXT);
    for key in ["j and k", "'g'", "'G'", "'/'", "'h'", "'m'", "'M'", "'t'", "'H'", "'q'", "'ESC'"] {
        assert!(HELP_TEXT.contains(key));
    }
    assert_eq!(app.render_comrad_help(), Some(overlay));
}

#[test]
fn at_most_one_overlay_is_shown_in_every_mode() {
    let openers: [&[Key]; 8] = [
        &[],
        &[Key::Char('/')],
        &[Key::Char('H')],
        &[Key::Char('h')],
        &[Key::Char('m')],
        &[Key::Char('M')],
        &[Key::Char('t')],
        &[Key::Char('t'), Key::Other],
    ];
    for (n, keys) in openers.iter().enumerate() {
        let mut app = browser();
        app.handle_key_event(Key::Char('j'));
        for key in keys.iter() {
            if *key == Key::Other {
                app.receive_listing(&stdout(b""));
            } else {
                app.handle_key_event(*key);
            }
        }
        let shown = [
            app.render_filter_popup(),
            app.render_man_help(),
            app.render_tldr_help(),
            app.render_add_to_tldr_cache(),
            app.render_help(),
            app.render_comrad_help(),
        ];
        let count = shown.iter().filter(|o| o.is_some()).count();
        let expected = if n == 0 || n == 5 { 0 } else { 1 };
        assert_eq!(count, expected);
        assert_eq!(app.render().overlay.is_some(), expected == 1);
    }
}

#[test]
fn the_pager_mode_draws_no_overlay() {
    let mut app = browser();
    assert_eq!(app.handle_key_event(Key::Char('M')), Action::EnterMan("Bash".to_string()));
    assert_eq!(app.render().overlay, None);
}

#[test]
fn small_panes_are_centred_and_text_panes_cover_the_list() {
    assert_eq!(
        OverlayKind::Filter.placement(),
        Placement { width: Extent::Percent(30), height: Extent::Cells(3) }
    );
    assert_eq!(
        OverlayKind::Confirm.placement(),
        Placement { width: Extent::Cells(80), height: Extent::Cells(5) }
    );
    let covering =
        [OverlayKind::CommandHelp, OverlayKind::Man, OverlayKind::Tldr, OverlayKind::AppHelp];
    for kind in covering {
        assert_eq!(kind.placement(), Placement { width: Extent::Full, height: Extent::Full });
    }
}

#[test]
fn the_footers_list_their_key_bindings() {
    assert_eq!(Footer::Filter.hints(), vec![Hint { label: " Exit filter ", key: "<Esc/Enter>" }]);
    let general = Footer::General.hints();
    let keys: Vec<&str> = general.iter().map(|h| h.key).collect();
    assert_eq!(keys, vec!["<j> ", "<k> ", "<H> ", "<h> ", "<m> ", "<M> ", "<t> ", "</>", "<q> "]);
    let labels: Vec<&str> = general.iter().map(|h| h.label).collect();
    assert_eq!(
        labels,
        vec![
            " Down ",
            " Up ",
            " Comrad help ",
            " Show help ",
            " Show man ",
            " Enter man ",
            " Show tldr ",
            " Filter ",
            " Quit "
        ]
    );
}

#[test]
fn only_the_prompt_and_the_application_help_centre_their_text() {
    assert!(OverlayKind::Confirm.centres_text());
    assert!(OverlayKind::AppHelp.centres_text());
    let plain =
        [OverlayKind::Filter, OverlayKind::CommandHelp, OverlayKind::Man, OverlayKind::Tldr];
    for kind in plain {
        assert!(!kind.centres_text());
    }
}

#[test]
fn a_missing_quick_reference_tool_is_shown_in_the_overlay() {
    let mut app = browser();
    app.handle_key_event(Key::Char('t'));
    app.receive_listing(&Lookup::NotRun);
    assert_eq!(
        app.render().overlay,
        Some(Overlay {
            kind: OverlayKind::Tldr,
            title: "Bash".to_string(),
            body: "Error: Check if TLDR is installed in your system.".to_string(),
        })
    );
    assert_eq!(app.render_add_to_tldr_cache(), None);
}
