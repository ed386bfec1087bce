use git_ce::generate::{generation_prompt, push_patch_line};

#[test]
fn added_removed_and_context_lines_keep_their_marker() {
    let mut patch = String::from("diff\n");
    push_patch_line(&mut patch, '+', "new\n");
    push_patch_line(&mut patch, '-', "old\n");
    push_patch_line(&mut patch, ' ', "same\n");
    assert_eq!("diff\n+new\n-old\n same\n", patch);
}

#[test]
fn other_lines_are_taken_as_they_are() {
    let mut patch = String::new();
    push_patch_line(&mut patch, 'F', "diff --git a/x b/x\n");
    push_patch_line(&mut patch, 'H', "@@ -1 +1 @@\n");
    push_patch_line(&mut patch, '>', "");
    assert_eq!("diff --git a/x b/x\n@@ -1 +1 @@\n", patch);
}

#[test]
fn generation_prompt_puts_the_patch_behind_the_request() {
    assert_eq!(
        "Write me a conventional commit message using the following: +new\n",
        generation_prompt("+new\n")
    );
    assert_eq!(
        "Write me a conventional commit message using the following: ",
        generation_prompt("")
    );
}
