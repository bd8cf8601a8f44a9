//! The stored settings (service address and key) and the library of named
//! system prompts: what is in use when their files held nothing usable, and
//! how the prompt library is edited.

use vstd::prelude::*;

verus! {

/// Where the chat service lives and the key that opens it.
#[derive(Debug, Clone, PartialEq, Eq)]
pub struct Configuration {
    pub url_prefix: String,
    pub secret: String,
}

/// The model of a `Configuration`.
pub struct ConfigurationView {
    pub url_prefix: Seq<char>,
    pub secret: Seq<char>,
}

impl View for Configuration {
    type V = ConfigurationView;

    open spec fn view(&self) -> ConfigurationView {
        ConfigurationView { url_prefix: self.url_prefix@, secret: self.secret@ }
    }
}

/// A named system prompt of the library.
#[derive(Debug, Clone, PartialEq, Eq)]
pub struct SystemPrompt {
    pub name: String,
    pub content: String,
}

/// The model of a `SystemPrompt`.
pub struct SystemPromptView {
    pub name: Seq<char>,
    pub content: Seq<char>,
}

impl View for SystemPrompt {
    type V = SystemPromptView;

    open spec fn view(&self) -> SystemPromptView {
        SystemPromptView { name: self.name@, content: self.content@ }
    }
}

/// The models of a run of prompts.
pub open spec fn prompt_views(prompts: Seq<SystemPrompt>) -> Seq<SystemPromptView> {
    Seq::new(prompts.len(), |i: int| prompts[i]@)
}

/// The address used when none has been stored.
pub open spec fn default_url_prefix() -> Seq<char> {
    "https://api.openai.com"@
}

/// The settings used when none have been stored: the public service address
/// and no key.
pub open spec fn default_configuration() -> ConfigurationView {
    ConfigurationView { url_prefix: default_url_prefix(), secret: Seq::empty() }
}

impl Default for Configuration {
    fn default() -> (r: Self)
        ensures
            r@ == default_configuration(),
    {
        Configuration { url_prefix: String::from_str("https://api.openai.com"), secret: String::new() }
    }
}

impl Configuration {
    /// The same settings with another service address.
    pub fn with_url_prefix(&self, url_prefix: &str) -> (r: Configuration)
        ensures
            r@ == (ConfigurationView { url_prefix: url_prefix@, secret: self.secret@ }),
    {
        Configuration { url_prefix: String::from_str(url_prefix), secret: self.secret.clone() }
    }

    /// The same settings with another key.
    pub fn with_secret(&self, secret: &str) -> (r: Configuration)
        ensures
            r@ == (ConfigurationView { url_prefix: self.url_prefix@, secret: secret@ }),
    {
        Configuration { url_prefix: self.url_prefix.clone(), secret: String::from_str(secret) }
    }
}

/// The settings in use after reading the settings file: what it held, or the
/// default settings when there was no file or its text did not hold settings
/// (`parsed` is `None`).
pub fn load_configuration(parsed: Option<Configuration>) -> (r: Configuration)
    ensures
        r@ == match parsed {
            Some(c) => c@,
            None => default_configuration(),
        },
{
    match parsed {
        Some(c) => c,
        None => Configuration::default(),
    }
}

/// The prompt library in use after reading the prompts file: what it held,
/// or no prompts when there was no file or its text did not hold a library
/// (`parsed` is `None`).
pub fn load_system_prompts(parsed: Option<Vec<SystemPrompt>>) -> (r: Vec<SystemPrompt>)
    ensures
        prompt_views(r@) == match parsed {
            Some(ps) => prompt_views(ps@),
            None => Seq::empty(),
        },
{
    match parsed {
        Some(ps) => ps,
        None => {
            let e: Vec<SystemPrompt> = Vec::new();
            assert(prompt_views(e@) =~= Seq::empty());
            e
        },
    }
}

/// `i` is the first position of a prompt named `name`.
pub open spec fn is_first_named(ps: Seq<SystemPromptView>, name: Seq<char>, i: int) -> bool {
    &&& 0 <= i < ps.len()
    &&& ps[i].name == name
    &&& forall|j: int| 0 <= j < i ==> #[trigger] ps[j].name != name
}

/// The position of the first prompt named `name`, if there is one.
pub open spec fn prompt_position(ps: Seq<SystemPromptView>, name: Seq<char>) -> Option<int> {
    if exists|i: int| is_first_named(ps, name, i) {
        Some(choose|i: int| is_first_named(ps, name, i))
    } else {
        None
    }
}

/// The content of the first prompt named `name`, if there is one.
pub open spec fn prompt_content(ps: Seq<SystemPromptView>, name: Seq<char>) -> Option<Seq<char>> {
    match prompt_position(ps, name) {
        Some(i) => Some(ps[i].content),
        None => None,
    }
}

/// No two prompts share a name.
pub open spec fn names_unique(ps: Seq<SystemPromptView>) -> bool {
    forall|i: int, j: int| 0 <= i < j < ps.len() ==> #[trigger] ps[i].name != #[trigger] ps[j].name
}

/// The library after saving `content` under `name`: the first prompt of that
/// name gets the new content; with no such prompt, a new one is appended.
pub open spec fn saved_prompts(ps: Seq<SystemPromptView>, name: Seq<char>, content: Seq<char>) -> Seq<
    SystemPromptView,
> {
    match prompt_position(ps, name) {
        Some(i) => ps.update(i, SystemPromptView { name: name, content: content }),
        None => ps.push(SystemPromptView { name: name, content: content }),
    }
}

/// The library after deleting `name`: the first prompt of that name is
/// removed; with no such prompt, nothing changes.
pub open spec fn deleted_prompts(ps: Seq<SystemPromptView>, name: Seq<char>) -> Seq<SystemPromptView> {
    match prompt_position(ps, name) {
        Some(i) => ps.remove(i),
        None => ps,
    }
}

proof fn lemma_position_at(ps: Seq<SystemPromptView>, name: Seq<char>, i: int)
    requires
        is_first_named(ps, name, i),
    ensures
        prompt_position(ps, name) == Some(i),
{
    let k = choose|k: int| is_first_named(ps, name, k);
    assert(is_first_named(ps, name, k));
    if k < i {
        assert(ps[k].name != name);
    } else if k > i {
        assert(ps[i].name != name);
    }
}

proof fn lemma_position_absent(ps: Seq<SystemPromptView>, name: Seq<char>)
    requires
        forall|j: int| 0 <= j < ps.len() ==> #[trigger] ps[j].name != name,
    ensures
        prompt_position(ps, name) is None,
{
}

proof fn lemma_position_some(ps: Seq<SystemPromptView>, name: Seq<char>)
    requires
        prompt_position(ps, name) is Some,
    ensures
        is_first_named(ps, name, prompt_position(ps, name)->0),
{
}

/// The position of the first prompt named `name`.
pub fn find_prompt(prompts: &Vec<SystemPrompt>, name: &String) -> (r: Option<usize>)
    ensures
        match r {
            Some(i) => prompt_position(prompt_views(prompts@), name@) == Some(i as int),
            None => prompt_position(prompt_views(prompts@), name@) is None,
        },
{
    let ghost ps = prompt_views(prompts@);
    let mut i: usize = 0;
    while i < prompts.len()
        invariant
            i <= prompts.len(),
            ps == prompt_views(prompts@),
            forall|j: int| 0 <= j < i ==> #[trigger] ps[j].name != name@,
        decreases prompts.len() - i,
    {
        if prompts[i].name == *name {
            proof {
                lemma_position_at(ps, name@, i as int);
            }
            return Some(i);
        }
        i += 1;
    }
    proof {
        lemma_position_absent(ps, name@);
    }
    None
}

/// Saves `content` under `name`: the first prompt of that name gets the new
/// content, or a new prompt is appended.
pub fn save_prompt(prompts: &mut Vec<SystemPrompt>, name: &String, content: &String)
    ensures
        prompt_views(final(prompts)@) == saved_prompts(prompt_views(old(prompts)@), name@, content@),
{
    let ghost ps = prompt_views(prompts@);
    match find_prompt(prompts, name) {
        Some(i) => {
            let kept = prompts[i].name.clone();
            prompts.set(i, SystemPrompt { name: kept, content: content.clone() });
            proof {
                lemma_position_some(ps, name@);
                assert(prompt_views(prompts@) =~= ps.update(i as int, SystemPromptView { name: name@, content: content@ }));
            }
        },
        None => {
            prompts.push(SystemPrompt { name: name.clone(), content: content.clone() });
            proof {
                assert(prompt_views(prompts@) =~= ps.push(SystemPromptView { name: name@, content: content@ }));
            }
        },
    }
}

/// Deletes the first prompt named `name`, if there is one.
pub fn delete_prompt(prompts: &mut Vec<SystemPrompt>, name: &String)
    ensures
        prompt_views(final(prompts)@) == deleted_prompts(prompt_views(old(prompts)@), name@),
{
    let ghost ps = prompt_views(prompts@);
    match find_prompt(prompts, name) {
        Some(i) => {
            prompts.remove(i);
            proof {
                assert(prompt_views(prompts@) =~= ps.remove(i as int));
            }
        },
        None => {},
    }
}

/// After saving `content` under `name`, the prompt of that name holds `content`.
pub proof fn lemma_save_then_lookup(ps: Seq<SystemPromptView>, name: Seq<char>, content: Seq<char>)
    ensures
        prompt_content(saved_prompts(ps, name, content), name) == Some(content),
{
    let p = SystemPromptView { name: name, content: content };
    match prompt_position(ps, name) {
        Some(i) => {
            lemma_position_some(ps, name);
            let qs = ps.update(i, p);
            assert(is_first_named(qs, name, i)) by {
                assert forall|j: int| 0 <= j < i implies #[trigger] qs[j].name != name by {
                    assert(qs[j] == ps[j]);
                }
            }
            lemma_position_at(qs, name, i);
        },
        None => {
            let qs = ps.push(p);
            assert(is_first_named(qs, name, ps.len() as int)) by {
                assert forall|j: int| 0 <= j < ps.len() implies #[trigger] qs[j].name != name by {
                    assert(qs[j] == ps[j]);
                    if ps[j].name == name {
                        assert(exists|k: int| is_first_named(ps, name, k)) by {
                            lemma_first_of_any(ps, name, j);
                        }
                    }
                }
            }
            lemma_position_at(qs, name, ps.len() as int);
        },
    }
}

/// Where some prompt is named `name`, a first one is.
proof fn lemma_first_of_any(ps: Seq<SystemPromptView>, name: Seq<char>, j: int)
    requires
        0 <= j < ps.len(),
        ps[j].name == name,
    ensures
        exists|k: int| is_first_named(ps, name, k),
    decreases j,
{
    if exists|k: int| 0 <= k < j && #[trigger] ps[k].name == name {
        let k = choose|k: int| 0 <= k < j && #[trigger] ps[k].name == name;
        lemma_first_of_any(ps, name, k);
    } else {
        assert(is_first_named(ps, name, j));
    }
}

/// Where no prompt is named `name`, looking it up finds nothing.
proof fn lemma_absent_iff(ps: Seq<SystemPromptView>, name: Seq<char>)
    ensures
        prompt_position(ps, name) is None <==> forall|j: int| 0 <= j < ps.len() ==> #[trigger] ps[j].name != name,
{
    if prompt_position(ps, name) is None {
        assert forall|j: int| 0 <= j < ps.len() implies #[trigger] ps[j].name != name by {
            if ps[j].name == name {
                lemma_first_of_any(ps, name, j);
            }
        }
    } else {
        lemma_position_some(ps, name);
    }
}

/// Saving under `name` leaves what every other name looks up unchanged.
pub proof fn lemma_save_keeps_others(
    ps: Seq<SystemPromptView>,
    name: Seq<char>,
    content: Seq<char>,
    other: Seq<char>,
)
    requires
        other != name,
    ensures
        prompt_content(saved_prompts(ps, name, content), other) == prompt_content(ps, other),
{
    let p = SystemPromptView { name: name, content: content };
    let qs = saved_prompts(ps, name, content);
    assert(qs.len() >= ps.len());
    assert(forall|j: int| 0 <= j < ps.len() && ps[j].name != name ==> #[trigger] qs[j] == ps[j]);
    assert(forall|j: int| 0 <= j < qs.len() ==> (#[trigger] qs[j]).name == (if j < ps.len() { ps[j].name } else { name })) by {
        if prompt_position(ps, name) is Some {
            lemma_position_some(ps, name);
        }
    }
    match prompt_position(ps, other) {
        Some(k) => {
            lemma_position_some(ps, other);
            assert(is_first_named(qs, other, k));
            lemma_position_at(qs, other, k);
        },
        None => {
            lemma_absent_iff(ps, other);
            lemma_absent_iff(qs, other);
        },
    }
}

/// Saving keeps names unique.
pub proof fn lemma_save_keeps_names_unique(ps: Seq<SystemPromptView>, name: Seq<char>, content: Seq<char>)
    requires
        names_unique(ps),
    ensures
        names_unique(saved_prompts(ps, name, content)),
{
    let qs = saved_prompts(ps, name, content);
    match prompt_position(ps, name) {
        Some(i) => {
            lemma_position_some(ps, name);
            assert forall|a: int, b: int| 0 <= a < b < qs.len() implies #[trigger] qs[a].name != #[trigger] qs[b].name by {
                assert(qs[a].name == ps[a].name);
                assert(qs[b].name == ps[b].name);
            }
        },
        None => {
            lemma_absent_iff(ps, name);
            assert forall|a: int, b: int| 0 <= a < b < qs.len() implies #[trigger] qs[a].name != #[trigger] qs[b].name by {
                if b < ps.len() {
                    assert(qs[a] == ps[a] && qs[b] == ps[b]);
                } else {
                    assert(qs[a] == ps[a]);
                }
            }
        },
    }
}

/// In a library whose names are unique, a deleted name is gone.
pub proof fn lemma_delete_removes(ps: Seq<SystemPromptView>, name: Seq<char>)
    requires
        names_unique(ps),
    ensures
        prompt_position(deleted_prompts(ps, name), name) is None,
{
    let qs = deleted_prompts(ps, name);
    match prompt_position(ps, name) {
        Some(i) => {
            lemma_position_some(ps, name);
            assert forall|j: int| 0 <= j < qs.len() implies #[trigger] qs[j].name != name by {
                if j < i {
                    assert(qs[j] == ps[j]);
                } else {
                    assert(qs[j] == ps[j + 1]);
                    assert(ps[i].name != ps[j + 1].name);
                }
            }
        },
        None => {},
    }
    lemma_absent_iff(qs, name);
}

/// Deleting `name` leaves what every other name looks up unchanged.
pub proof fn lemma_delete_keeps_others(ps: Seq<SystemPromptView>, name: Seq<char>, other: Seq<char>)
    requires
        other != name,
    ensures
        prompt_content(deleted_prompts(ps, name), other) == prompt_content(ps, other),
{
    let qs = deleted_prompts(ps, name);
    match prompt_position(ps, name) {
        Some(i) => {
            lemma_position_some(ps, name);
            match prompt_position(ps, other) {
                Some(k) => {
                    lemma_position_some(ps, other);
                    if k < i {
                        assert(is_first_named(qs, other, k)) by {
                            assert forall|j: int| 0 <= j < k implies #[trigger] qs[j].name != other by {
                                assert(qs[j] == ps[j]);
                            }
                        }
                        lemma_position_at(qs, other, k);
                    } else {
                        assert(k != i);
                        assert(is_first_named(qs, other, k - 1)) by {
                            assert(qs[k - 1] == ps[k]);
                            assert forall|j: int| 0 <= j < k - 1 implies #[trigger] qs[j].name != other by {
                                if j < i {
                                    assert(qs[j] == ps[j]);
                                } else {
                                    assert(qs[j] == ps[j + 1]);
                                }
                            }
                        }
                        lemma_position_at(qs, other, k - 1);
                    }
                },
                None => {
                    lemma_absent_iff(ps, other);
                    assert forall|j: int| 0 <= j < qs.len() implies #[trigger] qs[j].name != other by {
                        if j < i {
                            assert(qs[j] == ps[j]);
                        } else {
                            assert(qs[j] == ps[j + 1]);
                        }
                    }
                    lemma_absent_iff(qs, other);
                },
            }
        },
        None => {},
    }
}

/// Saving a name that the library does not hold and then deleting it gives
/// back the library as it was.
pub proof fn lemma_save_then_delete(ps: Seq<SystemPromptView>, name: Seq<char>, content: Seq<char>)
    requires
        prompt_position(ps, name) is None,
    ensures
        deleted_prompts(saved_prompts(ps, name, content), name) == ps,
{
    let qs = ps.push(SystemPromptView { name: name, content: content });
    lemma_absent_iff(ps, name);
    assert(is_first_named(qs, name, ps.len() as int)) by {
        assert forall|j: int| 0 <= j < ps.len() implies #[trigger] qs[j].name != name by {
            assert(qs[j] == ps[j]);
        }
    }
    lemma_position_at(qs, name, ps.len() as int);
    assert(qs.remove(ps.len() as int) =~= ps);
}

/// Saving under a name the library already holds overwrites that prompt's
/// content instead of adding a second prompt of the same name.
pub proof fn lemma_save_overwrites(ps: Seq<SystemPromptView>, name: Seq<char>, content: Seq<char>)
    requires
        prompt_position(ps, name) is Some,
    ensures
        saved_prompts(ps, name, content).len() == ps.len(),
        forall|j: int| 0 <= j < ps.len() ==> #[trigger] saved_prompts(ps, name, content)[j].name == ps[j].name,
{
    lemma_position_some(ps, name);
}

/// Deleting keeps names unique.
pub proof fn lemma_delete_keeps_names_unique(ps: Seq<SystemPromptView>, name: Seq<char>)
    requires
        names_unique(ps),
    ensures
        names_unique(deleted_prompts(ps, name)),
{
    let qs = deleted_prompts(ps, name);
    match prompt_position(ps, name) {
        Some(i) => {
            lemma_position_some(ps, name);
            assert forall|a: int, b: int| 0 <= a < b < qs.len() implies #[trigger] qs[a].name != #[trigger] qs[b].name by {
                let a0 = if a < i { a } else { a + 1 };
                let b0 = if b < i { b } else { b + 1 };
                assert(qs[a] == ps[a0]);
                assert(qs[b] == ps[b0]);
            }
        },
        None => {},
    }
}

} // verus!
