use openai_qa::settings::{
    delete_prompt, find_prompt, load_configuration, load_system_prompts, save_prompt, Configuration,
    SystemPrompt,
};

fn config(url: &str, secret: &str) -> Configuration {
    Configuration { url_prefix: url.to_string(), secret: secret.to_string() }
}

fn prompt(name: &str, content: &str) -> SystemPrompt {
    SystemPrompt { name: name.to_string(), content: content.to_string() }
}

#[test]
fn default_configuration_points_at_the_public_service() {
    assert_eq!(Configuration::default(), config("https://api.openai.com", ""));
}

#[test]
fn loading_settings_falls_back_to_the_default() {
    assert_eq!(load_configuration(None), Configuration::default());
    assert_eq!(load_configuration(Some(config("u", "s"))), config("u", "s"));
}

#[test]
fn loading_prompts_falls_back_to_none() {
    assert_eq!(load_system_prompts(None), vec![]);
    let ps = vec![prompt("a", "1"), prompt("a", "2")];
    assert_eq!(load_system_prompts(Some(ps.clone())), ps);
}

#[test]
fn configuration_edits_keep_the_other_field() {
    let c = config("a", "b");
    assert_eq!(c.with_url_prefix("c"), config("c", "b"));
    assert_eq!(c.with_secret("d"), config("a", "d"));
}

#[test]
fn saving_a_prompt_updates_or_appends() {
    let mut ps = vec![prompt("a", "1"), prompt("b", "2")];
    save_prompt(&mut ps, &"b".to_string(), &"3".to_string());
    assert_eq!(ps, vec![prompt("a", "1"), prompt("b", "3")]);
    save_prompt(&mut ps, &"c".to_string(), &"4".to_string());
    assert_eq!(ps, vec![prompt("a", "1"), prompt("b", "3"), prompt("c", "4")]);
}

#[test]
fn deleting_a_prompt_removes_the_first_of_its_name() {
    let mut ps = vec![prompt("a", "1"), prompt("b", "2"), prompt("a", "3")];
    delete_prompt(&mut ps, &"a".to_string());
    assert_eq!(ps, vec![prompt("b", "2"), prompt("a", "3")]);
    delete_prompt(&mut ps, &"z".to_string());
    assert_eq!(ps, vec![prompt("b", "2"), prompt("a", "3")]);
}

#[test]
fn deleting_keeps_names_distinct() {
    let mut ps = vec![prompt("a", "1"), prompt("b", "2"), prompt("c", "3")];
    delete_prompt(&mut ps, &"b".to_string());
    assert_eq!(ps, vec![prompt("a", "1"), prompt("c", "3")]);
}

#[test]
fn finding_a_prompt() {
    let ps = vec![prompt("a", "1"), prompt("b", "2"), prompt("b", "3")];
    assert_eq!(find_prompt(&ps, &"b".to_string()), Some(1));
    assert_eq!(find_prompt(&ps, &"c".to_string()), None);
}

#[test]
fn save_then_delete_of_a_new_name_restores_the_library() {
    let original = vec![prompt("a", "1")];
    let mut ps = vec![prompt("a", "1")];
    save_prompt(&mut ps, &"n".to_string(), &"c".to_string());
    delete_prompt(&mut ps, &"n".to_string());
    assert_eq!(ps, original);
}

#[test]
fn saved_prompt_is_found_with_its_content() {
    let mut ps = vec![prompt("a", "1"), prompt("b", "2")];
    save_prompt(&mut ps, &"a".to_string(), &"9".to_string());
    let i = find_prompt(&ps, &"a".to_string()).unwrap();
    assert_eq!(ps[i].content, "9");
    assert_eq!(ps.len(), 2);
    assert_eq!(ps[find_prompt(&ps, &"b".to_string()).unwrap()].content, "2");
}
