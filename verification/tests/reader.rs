use headlines::headlines::{news_cards, NO_DESCRIPTION};
use headlines::response::decode;
use headlines::{Headlines, HeadlinesConfig, Msg, NewsCardData, Screen};

fn card(title: &str) -> NewsCardData {
    NewsCardData {
        title: title.to_string(),
        desc: "d".to_string(),
        url: "u".to_string(),
    }
}

#[test]
fn default_config_is_light_without_a_key() {
    let config = HeadlinesConfig::default();
    assert!(!config.dark_mode);
    assert_eq!(config.api_key, "");
}

#[test]
fn default_state_is_empty_and_closed() {
    let state = Headlines::default();
    assert!(state.articles.is_empty());
    assert!(!state.config.dark_mode);
    assert_eq!(state.config.api_key, "");
    assert!(!state.api_key_initialized);
    assert!(!state.toggle_config);
    assert!(!state.toggle_about);
}

#[test]
fn init_takes_the_stored_settings() {
    let stored = HeadlinesConfig { dark_mode: true, api_key: "abc".to_string() };
    let state = Headlines::default().init(Some(stored));
    assert!(state.config.dark_mode);
    assert_eq!(state.config.api_key, "abc");
    assert!(state.api_key_initialized);
    assert!(!state.toggle_config);
}

#[test]
fn init_with_an_empty_stored_key_leaves_the_key_to_be_asked_for() {
    let state = Headlines::default().init(Some(HeadlinesConfig::default()));
    assert!(!state.api_key_initialized);
    assert_eq!(state.config.api_key, "");
}

#[test]
fn init_without_storage_keeps_the_settings_and_closes_the_form() {
    let mut state = Headlines::default();
    state.config.api_key = "kept".to_string();
    state.toggle_config = true;
    state.toggle_about = true;
    state.articles.push(card("a"));
    let state = state.init(None);
    assert_eq!(state.config.api_key, "kept");
    assert!(!state.api_key_initialized);
    assert!(!state.toggle_config);
    assert!(state.toggle_about);
    assert_eq!(state.articles.len(), 1);
}

#[test]
fn preload_appends_a_received_card() {
    let mut state = Headlines::default();
    state.preload_articles(Some(card("first")));
    state.preload_articles(None);
    state.preload_articles(Some(card("second")));
    assert_eq!(state.articles.len(), 2);
    assert_eq!(state.articles[0].title, "first");
    assert_eq!(state.articles[1].title, "second");
}

#[test]
fn preload_of_nothing_changes_nothing() {
    let mut state = Headlines::default();
    state.articles.push(card("a"));
    state.toggle_about = true;
    state.preload_articles(None);
    assert_eq!(state.articles.len(), 1);
    assert!(state.toggle_about);
}

#[test]
fn refresh_clears_the_cards_and_asks_for_more() {
    let mut state = Headlines::default();
    state.articles.push(card("a"));
    state.articles.push(card("b"));
    state.config.api_key = "k".to_string();
    let request = state.refresh();
    assert!(matches!(request, Msg::Refresh));
    assert!(state.articles.is_empty());
    assert_eq!(state.config.api_key, "k");
}

#[test]
fn submitting_the_key_marks_it_given_and_sends_it() {
    let mut state = Headlines::default();
    state.config.api_key = "entered".to_string();
    state.toggle_config = true;
    let request = state.submit_api_key();
    match request {
        Msg::ApiKeySet(key) => assert_eq!(key, "entered"),
        other => panic!("unexpected: {:?}", other),
    }
    assert!(state.api_key_initialized);
    assert!(state.toggle_config);
    assert_eq!(state.config.api_key, "entered");
}

#[test]
fn screen_follows_the_panels_then_the_cards() {
    let mut state = Headlines::default();
    assert_eq!(state.screen(), Screen::Loading);
    state.articles.push(card("a"));
    assert_eq!(state.screen(), Screen::News);
    state.toggle_config = true;
    assert_eq!(state.screen(), Screen::Config);
    state.toggle_about = true;
    assert_eq!(state.screen(), Screen::About);
    state.toggle_config = false;
    assert_eq!(state.screen(), Screen::About);
}

#[test]
fn message_key_is_the_entered_one_or_the_initial_one() {
    assert_eq!(Msg::ApiKeySet("new".to_string()).api_key("old"), "new");
    assert_eq!(Msg::Refresh.api_key("old"), "old");
    assert_eq!(Msg::ApiKeySet(String::new()).api_key("old"), "");
}

#[test]
fn card_shows_title_url_and_description() {
    let response = decode(
        r#"{"status":"ok","articles":[{"title":"T","url":"U","description":"D"}]}"#,
    )
    .unwrap();
    let card = NewsCardData::from_article(&response.articles()[0]);
    assert_eq!(card.title, "T");
    assert_eq!(card.url, "U");
    assert_eq!(card.desc, "D");
}

#[test]
fn card_shows_a_placeholder_for_a_missing_description() {
    let response = decode(
        r#"{"status":"ok","articles":[
            {"title":"a","url":"u"},
            {"title":"b","url":"u","description":null},
            {"title":"c","url":"u","description":""}]}"#,
    )
    .unwrap();
    let cards = news_cards(&response);
    assert_eq!(cards.len(), 3);
    assert_eq!(cards[0].desc, "...");
    assert_eq!(cards[1].desc, "...");
    assert_eq!(cards[2].desc, "");
    assert_eq!(NO_DESCRIPTION, "...");
    assert_ne!(NO_DESCRIPTION, "");
}

#[test]
fn cards_keep_the_order_of_the_articles() {
    let response = decode(
        r#"{"status":"ok","articles":[
            {"title":"1","url":"a"},{"title":"2","url":"b"},{"title":"3","url":"c"}]}"#,
    )
    .unwrap();
    let cards = news_cards(&response);
    let titles: Vec<&str> = cards.iter().map(|c| c.title.as_str()).collect();
    assert_eq!(titles, vec!["1", "2", "3"]);
    let urls: Vec<&str> = cards.iter().map(|c| c.url.as_str()).collect();
    assert_eq!(urls, vec!["a", "b", "c"]);
}

#[test]
fn cards_of_an_empty_response() {
    let response = decode(r#"{"status":"ok","articles":[]}"#).unwrap();
    assert!(news_cards(&response).is_empty());
}
