//! The state of the reader application: the cards on show, the settings,
//! and what each event does to them.
//!
//! Drawing, storage and the channels between the window and its worker are
//! the application's. It tells this state what happened and carries out
//! what the state answers.

use crate::response::{Article, ArticleView, NewsAPIResponse};
use vstd::prelude::*;

verus! {

/// What a card shows for an article without a description.
pub const NO_DESCRIPTION: &'static str = "...";

/// What the window asks of the worker that fetches.
#[derive(Debug)]
pub enum Msg {
    /// The reader entered a credential: fetch with it.
    ApiKeySet(String),
    /// The reader asked for fresh headlines.
    Refresh,
}

/// The settings that outlast a session.
#[derive(Debug)]
pub struct HeadlinesConfig {
    pub dark_mode: bool,
    pub api_key: String,
}

impl Default for HeadlinesConfig {
    /// Light mode, and no credential yet.
    fn default() -> (config: Self)
        ensures
            !config.dark_mode,
            config.api_key@ == Seq::<char>::empty(),
    {
        HeadlinesConfig { dark_mode: false, api_key: String::new() }
    }
}

/// One headline, ready to be drawn.
#[derive(Debug)]
pub struct NewsCardData {
    pub title: String,
    pub desc: String,
    pub url: String,
}

impl NewsCardData {
    /// Whether the card is the one that shows `article`: title and address
    /// as they are, and the description, or `NO_DESCRIPTION` in its place.
    pub open spec fn shows(self, article: ArticleView) -> bool {
        &&& self.title@ == article.title
        &&& self.url@ == article.url
        &&& self.desc@ == match article.description {
            Some(text) => text,
            None => NO_DESCRIPTION@,
        }
    }

    /// The card for an article.
    pub fn from_article(article: &Article) -> (card: NewsCardData)
        ensures
            card.shows(article@),
    {
        let desc = match article.desc() {
            Some(text) => text.clone(),
            None => NO_DESCRIPTION.to_owned(),
        };
        NewsCardData { title: article.title().to_owned(), desc, url: article.url().to_owned() }
    }
}

/// The placeholder is not the empty text, so a card tells an article
/// without a description from one whose description is empty.
pub proof fn lemma_placeholder_is_not_empty()
    ensures
        NO_DESCRIPTION@ != Seq::<char>::empty(),
{
    reveal_strlit("...");
    assert(NO_DESCRIPTION@.len() == 3);
}

/// The cards for a response: one for each article, in the same order.
pub fn news_cards(response: &NewsAPIResponse) -> (cards: Vec<NewsCardData>)
    ensures
        cards@.len() == response@.articles.len(),
        forall|i: int|
            0 <= i < cards@.len() ==> (#[trigger] cards@[i]).shows(response@.articles[i]),
{
    let articles = response.articles();
    let mut cards: Vec<NewsCardData> = Vec::new();
    let mut i: usize = 0;
    while i < articles.len()
        invariant
            i <= articles.len(),
            cards@.len() == i,
            articles@.len() == response@.articles.len(),
            forall|k: int|
                0 <= k < articles@.len() ==> (#[trigger] articles@[k])@ == response@.articles[k],
            forall|k: int| 0 <= k < i ==> (#[trigger] cards@[k]).shows(response@.articles[k]),
        decreases articles.len() - i,
    {
        cards.push(NewsCardData::from_article(&articles[i]));
        i += 1;
    }
    cards
}

impl Msg {
    /// The credential of the fetch that the message asks for: the one it
    /// brings, or for a refresh the one that the worker started with.
    pub fn api_key<'a>(&'a self, initial: &'a str) -> (key: &'a str)
        ensures
            key@ == match *self {
                Msg::ApiKeySet(entered) => entered@,
                Msg::Refresh => initial@,
            },
    {
        match self {
            Msg::ApiKeySet(entered) => entered.as_str(),
            Msg::Refresh => initial,
        }
    }
}

/// What the window is to draw.
#[derive(Debug, Clone, Copy, PartialEq, Eq, Structural)]
pub enum Screen {
    /// The note about the application.
    About,
    /// The form that asks for the credential.
    Config,
    /// A spinner: no card has arrived yet.
    Loading,
    /// The cards.
    News,
}

/// The state of the reader.
#[derive(Debug)]
pub struct Headlines {
    pub articles: Vec<NewsCardData>,
    pub config: HeadlinesConfig,
    pub api_key_initialized: bool,
    pub toggle_config: bool,
    pub toggle_about: bool,
}

impl Default for Headlines {
    /// No cards, the default settings, and every panel closed.
    fn default() -> (state: Self)
        ensures
            state.articles@ == Seq::<NewsCardData>::empty(),
            !state.config.dark_mode,
            state.config.api_key@ == Seq::<char>::empty(),
            !state.api_key_initialized,
            !state.toggle_config,
            !state.toggle_about,
    {
        Headlines {
            articles: Vec::new(),
            config: HeadlinesConfig::default(),
            api_key_initialized: false,
            toggle_config: false,
            toggle_about: false,
        }
    }
}

impl Headlines {
    /// Starts a session. `stored` is what the application's storage held,
    /// and `None` where there is no storage: then the settings stay. The
    /// credential counts as given if the settings hold one. The settings
    /// form starts closed.
    pub fn init(self, stored: Option<HeadlinesConfig>) -> (state: Self)
        ensures
            state.articles == self.articles,
            state.toggle_about == self.toggle_about,
            !state.toggle_config,
            match stored {
                Some(config) => state.config == config && state.api_key_initialized == (
                config.api_key@.len() > 0),
                None => state.config == self.config && state.api_key_initialized
                    == self.api_key_initialized,
            },
    {
        let mut state = self;
        if let Some(config) = stored {
            state.api_key_initialized = !config.api_key.as_str().is_empty();
            state.config = config;
        }
        state.toggle_config = false;
        state
    }

    /// Takes in what the worker's channel held: a card goes to the end of
    /// those on show, and nothing else changes.
    pub fn preload_articles(&mut self, received: Option<NewsCardData>)
        ensures
            final(self).articles@ == match received {
                Some(card) => old(self).articles@.push(card),
                None => old(self).articles@,
            },
            final(self).config == old(self).config,
            final(self).api_key_initialized == old(self).api_key_initialized,
            final(self).toggle_config == old(self).toggle_config,
            final(self).toggle_about == old(self).toggle_about,
    {
        if let Some(news_data) = received {
            self.articles.push(news_data);
        }
    }

    /// The reader asked for fresh headlines: the cards on show go, and the
    /// worker is to be told `Refresh`.
    pub fn refresh(&mut self) -> (request: Msg)
        ensures
            request == Msg::Refresh,
            final(self).articles@ == Seq::<NewsCardData>::empty(),
            final(self).config == old(self).config,
            final(self).api_key_initialized == old(self).api_key_initialized,
            final(self).toggle_config == old(self).toggle_config,
            final(self).toggle_about == old(self).toggle_about,
    {
        self.articles.clear();
        Msg::Refresh
    }

    /// The reader confirmed the credential in the settings form: it counts
    /// as given, and the worker is to be told it.
    pub fn submit_api_key(&mut self) -> (request: Msg)
        ensures
            request == Msg::ApiKeySet(old(self).config.api_key),
            final(self).api_key_initialized,
            final(self).articles == old(self).articles,
            final(self).config == old(self).config,
            final(self).toggle_config == old(self).toggle_config,
            final(self).toggle_about == old(self).toggle_about,
    {
        self.api_key_initialized = true;
        Msg::ApiKeySet(self.config.api_key.clone())
    }

    /// What to draw: the note about the application if it is open, else the
    /// settings form if that is open, else the cards, or a spinner while
    /// there are none.
    pub fn screen(&self) -> (screen: Screen)
        ensures
            screen == if self.toggle_about {
                Screen::About
            } else if self.toggle_config {
                Screen::Config
            } else if self.articles@.len() == 0 {
                Screen::Loading
            } else {
                Screen::News
            },
    {
        if self.toggle_about {
            Screen::About
        } else if self.toggle_config {
            Screen::Config
        } else if self.articles.is_empty() {
            Screen::Loading
        } else {
            Screen::News
        }
    }
}

} // verus!
