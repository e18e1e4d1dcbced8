use safe_vk::{matchit, Filter};

#[test]
fn strict_matches_only_the_exact_trigger() {
    assert!(matchit("/start", "/start", &Filter::Strict));
    assert!(!matchit("/START", "/start", &Filter::Strict));
    assert!(!matchit(" /start", "/start", &Filter::Strict));
}

#[test]
fn flexible_ignores_case_and_surrounding_space() {
    assert!(matchit("/START", "/start", &Filter::Flexible));
    assert!(matchit(" /start ", "/start", &Filter::Flexible));
    assert!(matchit("/start", "/start", &Filter::Flexible));
    assert!(matchit(" /start", "/start", &Filter::Flexible));
}

#[test]
fn flexible_allows_one_leading_symbol_only() {
    assert!(matchit("!hello", "hello", &Filter::Flexible));
    assert!(!matchit("!!hello", "hello", &Filter::Flexible));
    assert!(!matchit("/start now", "/start", &Filter::Flexible));
}

#[test]
fn sensitive_matches_whole_words_without_symbols() {
    assert!(matchit("start", "/start", &Filter::Sensitive));
    assert!(matchit("!start", "/start", &Filter::Sensitive));
    assert!(matchit("START", "/start", &Filter::Sensitive));
    assert!(!matchit("starting", "/start", &Filter::Sensitive));
}

#[test]
fn sensitive_finds_the_trigger_inside_a_sentence() {
    assert!(matchit("please start now", "/start", &Filter::Sensitive));
    assert!(matchit("do_start_", "/start", &Filter::Sensitive));
    assert!(!matchit("restart", "/start", &Filter::Sensitive));
}

#[test]
fn regex_symbols_in_triggers_are_literal() {
    assert!(matchit("a.b", "a.b", &Filter::Strict));
    assert!(!matchit("axb", "a.b", &Filter::Strict));
    assert!(matchit("1+1", "1+1", &Filter::Strict));
    assert!(!matchit("11", "1+1", &Filter::Strict));
}

#[test]
fn flexible_accepts_an_underscore_as_the_leading_symbol() {
    assert!(matchit("_hello", "hello", &Filter::Flexible));
    assert!(!matchit("xhello", "hello", &Filter::Flexible));
    assert!(!matchit("1hello", "hello", &Filter::Flexible));
}
