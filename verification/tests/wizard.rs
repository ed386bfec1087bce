use git_ce::commit::Commit;
use git_ce::dispatch::Invocation;
use git_ce::staging::{EntryStatus, INDEX_NEW};
use git_ce::wizard::{Request, Stage, Wizard};

fn staged() -> Vec<EntryStatus> {
    vec![EntryStatus { bits: INDEX_NEW }]
}

fn configured(scopes: &[&str]) -> Vec<Option<String>> {
    scopes.iter().map(|scope| Some(scope.to_string())).collect()
}

fn text(label: &str) -> Request {
    Request::Text { label: label.to_string() }
}

fn select(label: &str, options: &[&str]) -> Request {
    Request::Select {
        label: label.to_string(),
        options: options.iter().map(|option| option.to_string()).collect(),
        default_index: 0,
    }
}

fn answer(reply: &str) -> Option<String> {
    Some(reply.to_string())
}

fn git_commit(message: &str) -> Invocation {
    Invocation {
        program: "git".to_string(),
        args: vec![
            "commit".to_string(),
            "-m".to_string(),
            message.to_string(),
            "-e".to_string(),
        ],
    }
}

#[test]
fn nothing_staged_starts_no_wizard() {
    assert!(Wizard::begin(&[], &Vec::new()).is_none());
    let unstaged = [EntryStatus { bits: 0x100 }, EntryStatus { bits: 0x04 }];
    assert!(Wizard::begin(&unstaged, &configured(&["parser"])).is_none());
}

#[test]
fn wizard_starts_by_offering_the_nine_types() {
    let wizard = Wizard::begin(&staged(), &Vec::new()).unwrap();
    assert_eq!(Stage::Start, wizard.stage());
    assert_eq!(&Commit::default(), wizard.commit());
    assert_eq!(&vec![String::new()], wizard.scopes());
    assert_eq!(
        select(
            "Select a commit type",
            &["feat", "fix", "chore", "ci", "docs", "style", "refactor", "perf", "test"]
        ),
        wizard.request()
    );
}

#[test]
fn scenario_feature_with_scope() {
    let mut wizard = Wizard::begin(&staged(), &Vec::new()).unwrap();
    assert_eq!(text("Scope"), wizard.advance(answer("feat")));
    assert_eq!(Stage::TypeSelected, wizard.stage());
    assert_eq!(text("Breaking changes"), wizard.advance(answer("parser")));
    assert_eq!(Stage::ScopeResolved, wizard.stage());
    assert_eq!(text("feat(parser)"), wizard.advance(answer("")));
    assert_eq!(Stage::BreakingCaptured, wizard.stage());
    assert_eq!(None, wizard.commit().breaking);
    assert_eq!(Request::Dispatch, wizard.advance(answer("support nested arrays")));
    assert_eq!(Stage::SubjectCaptured, wizard.stage());
    assert_eq!(
        "feat(parser): support nested arrays",
        wizard.commit().to_string()
    );
    assert_eq!(
        Some(git_commit("feat(parser): support nested arrays")),
        wizard.dispatch()
    );
    assert_eq!(Stage::Assembled, wizard.stage());
    assert_eq!(Request::Exit, wizard.request());
}

#[test]
fn scenario_breaking_fix_without_scope() {
    let mut wizard = Wizard::begin(&staged(), &Vec::new()).unwrap();
    assert_eq!(text("Scope"), wizard.advance(answer("fix")));
    assert_eq!(text("Breaking changes"), wizard.advance(answer("")));
    assert_eq!("fix", wizard.commit().commit_type);
    assert_eq!(text("fix"), wizard.advance(answer("removes legacy flag")));
    assert_eq!(
        Some("removes legacy flag".to_string()),
        wizard.commit().breaking
    );
    assert_eq!(Request::Dispatch, wizard.advance(answer("drop --old-mode")));
    assert_eq!(
        "fix!: drop --old-mode\n\nBREAKING CHANGE: removes legacy flag",
        wizard.commit().to_string()
    );
    assert_eq!(
        Some(git_commit(
            "fix!: drop --old-mode\n\nBREAKING CHANGE: removes legacy flag"
        )),
        wizard.dispatch()
    );
}

#[test]
fn scenario_cancel_at_type_selection() {
    let mut wizard = Wizard::begin(&staged(), &configured(&["parser"])).unwrap();
    assert_eq!(Request::Exit, wizard.advance(None));
    assert_eq!(Stage::Aborted, wizard.stage());
    assert_eq!(None, wizard.dispatch());
    assert_eq!(Stage::Aborted, wizard.stage());
    assert_eq!(Request::Exit, wizard.advance(answer("feat")));
    assert_eq!(Stage::Aborted, wizard.stage());
    assert_eq!(None, wizard.dispatch());
}

#[test]
fn cancel_aborts_at_every_prompt() {
    let replies = ["docs", "", "", "reword"];
    for cancelled in 0..replies.len() {
        let mut wizard = Wizard::begin(&staged(), &Vec::new()).unwrap();
        for reply in &replies[..cancelled] {
            wizard.advance(answer(reply));
        }
        assert_ne!(Stage::Aborted, wizard.stage());
        assert_eq!(Request::Exit, wizard.advance(None));
        assert_eq!(Stage::Aborted, wizard.stage());
        assert_eq!(Request::Exit, wizard.request());
        assert_eq!(None, wizard.dispatch());
    }
}

#[test]
fn no_configured_scope_asks_for_free_text() {
    let mut wizard = Wizard::begin(&staged(), &Vec::new()).unwrap();
    assert_eq!(text("Scope"), wizard.advance(answer("style")));
    assert_eq!(text("Breaking changes"), wizard.advance(answer("anything at all")));
    assert_eq!("style(anything at all)", wizard.commit().commit_type);

    let mut wizard = Wizard::begin(&staged(), &vec![None, None]).unwrap();
    assert_eq!(text("Scope"), wizard.advance(answer("style")));
}

#[test]
fn configured_scopes_are_offered_with_the_sentinel_first() {
    let mut wizard = Wizard::begin(&staged(), &configured(&["parser", "cli"])).unwrap();
    assert_eq!(
        &vec!["".to_string(), "parser".to_string(), "cli".to_string()],
        wizard.scopes()
    );
    assert_eq!(
        select("Scope", &["", "parser", "cli"]),
        wizard.advance(answer("ci"))
    );
    assert_eq!(text("Breaking changes"), wizard.advance(answer("cli")));
    assert_eq!(Stage::ScopeResolved, wizard.stage());
    assert_eq!("ci(cli)", wizard.commit().commit_type);
}

#[test]
fn sentinel_stays_selectable_and_leaves_the_type_unscoped() {
    let mut wizard = Wizard::begin(&staged(), &configured(&["parser"])).unwrap();
    assert_eq!(select("Scope", &["", "parser"]), wizard.advance(answer("test")));
    assert_eq!(text("Breaking changes"), wizard.advance(answer("")));
    assert_eq!(Stage::ScopeResolved, wizard.stage());
    assert_eq!("test", wizard.commit().commit_type);
    assert_eq!(text("test"), wizard.advance(answer("")));
    assert_eq!(Request::Dispatch, wizard.advance(answer("cover the parser")));
    assert_eq!(Some(git_commit("test: cover the parser")), wizard.dispatch());
}

#[test]
fn answer_outside_the_offered_types_aborts() {
    for reply in ["", "feature", "feat(parser)", "FIX"] {
        let mut wizard = Wizard::begin(&staged(), &Vec::new()).unwrap();
        assert_eq!(Request::Exit, wizard.advance(answer(reply)));
        assert_eq!(Stage::Aborted, wizard.stage());
        assert_eq!(&Commit::default(), wizard.commit());
        assert_eq!(None, wizard.dispatch());
    }
}

#[test]
fn answer_outside_the_offered_scopes_aborts() {
    let mut wizard = Wizard::begin(&staged(), &configured(&["parser", "cli"])).unwrap();
    wizard.advance(answer("feat"));
    assert_eq!(Request::Exit, wizard.advance(answer("gui")));
    assert_eq!(Stage::Aborted, wizard.stage());
    assert_eq!("feat", wizard.commit().commit_type);
    assert_eq!(None, wizard.dispatch());
}

#[test]
fn record_is_handed_to_the_dispatcher_once() {
    let mut wizard = Wizard::begin(&staged(), &Vec::new()).unwrap();
    assert_eq!(None, wizard.dispatch());
    assert_eq!(Stage::Start, wizard.stage());
    wizard.advance(answer("chore"));
    assert_eq!(None, wizard.dispatch());
    wizard.advance(answer("deps"));
    assert_eq!(None, wizard.dispatch());
    wizard.advance(answer(""));
    assert_eq!(None, wizard.dispatch());
    assert_eq!(Stage::BreakingCaptured, wizard.stage());
    wizard.advance(answer("bump the parser"));
    assert_eq!(Request::Dispatch, wizard.request());
    assert_eq!(
        Some(git_commit("chore(deps): bump the parser")),
        wizard.dispatch()
    );
    assert_eq!(None, wizard.dispatch());
    assert_eq!(Stage::Assembled, wizard.stage());
}

#[test]
fn replies_change_nothing_once_the_record_is_complete() {
    let mut wizard = Wizard::begin(&staged(), &Vec::new()).unwrap();
    wizard.advance(answer("perf"));
    wizard.advance(answer(""));
    wizard.advance(answer(""));
    wizard.advance(answer("cache the plan"));
    let complete = wizard.commit().clone();
    assert_eq!(Request::Dispatch, wizard.advance(answer("again")));
    assert_eq!(Request::Dispatch, wizard.advance(None));
    assert_eq!(Stage::SubjectCaptured, wizard.stage());
    assert_eq!(&complete, wizard.commit());
    assert_eq!(Some(git_commit("perf: cache the plan")), wizard.dispatch());
    assert_eq!(Request::Exit, wizard.advance(answer("again")));
    assert_eq!(Request::Exit, wizard.advance(None));
    assert_eq!(Stage::Assembled, wizard.stage());
    assert_eq!(&complete, wizard.commit());
}

#[test]
fn subject_prompt_is_labelled_with_the_scoped_type() {
    let mut wizard = Wizard::begin(&staged(), &configured(&["api"])).unwrap();
    wizard.advance(answer("refactor"));
    wizard.advance(answer("api"));
    assert_eq!(text("refactor(api)"), wizard.advance(answer("moves the types")));
    assert_eq!(text("refactor(api)"), wizard.request());
}

#[test]
fn empty_subject_is_taken_as_it_is() {
    let mut wizard = Wizard::begin(&staged(), &Vec::new()).unwrap();
    wizard.advance(answer("docs"));
    wizard.advance(answer(""));
    wizard.advance(answer(""));
    assert_eq!(Request::Dispatch, wizard.advance(answer("")));
    assert_eq!(Some(git_commit("docs: ")), wizard.dispatch());
}
