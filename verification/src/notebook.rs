use vstd::prelude::*;

verus! {

/// What one tab holds, as mathematical values: the text of its header
/// label and the text of the placeholder shown as its body.
pub struct TabView {
    pub title: Seq<char>,
    pub content_text: Seq<char>,
}

pub open spec fn tab_view(title: Seq<char>, content_text: Seq<char>) -> TabView {
    TabView { title, content_text }
}

/// One tab of the tabbed container: a header showing a title beside a
/// close button, and a text placeholder as the tab's body.
pub struct Tab {
    pub title: String,
    pub content_text: String,
}

impl View for Tab {
    type V = TabView;

    open spec fn view(&self) -> TabView {
        TabView { title: self.title@, content_text: self.content_text@ }
    }
}

/// The tabbed container: an ordered row of tabs. A new tab is always
/// appended at the end; closing one removes it alone and leaves the
/// rest in their relative order.
pub struct Notebook {
    tabs: Vec<Tab>,
}

impl View for Notebook {
    type V = Seq<TabView>;

    closed spec fn view(&self) -> Seq<TabView> {
        self.tabs@.map_values(|t: Tab| t@)
    }
}

impl Notebook {
    /// An empty tabbed container; no preconditions, always succeeds.
    pub fn new() -> (nb: Notebook)
        ensures
            nb@ =~= Seq::<TabView>::empty(),
    {
        Notebook { tabs: Vec::new() }
    }

    /// How many tabs the container holds.
    pub fn count(&self) -> (n: usize)
        ensures
            n == self@.len(),
    {
        self.tabs.len()
    }

    /// The tab at `index`, counting from the left.
    pub fn tab(&self, index: usize) -> (tab: &Tab)
        requires
            index < self@.len(),
        ensures
            tab@ == self@[index as int],
    {
        &self.tabs[index]
    }

    /// Appends a tab titled `title` whose body shows `content_text`;
    /// the new tab becomes the last tab. Duplicate titles are
    /// permitted and not validated.
    pub fn create_tab(&mut self, title: String, content_text: String)
        ensures
            final(self)@ =~= old(self)@.push(tab_view(title@, content_text@)),
    {
        self.tabs.push(Tab { title, content_text });
    }

    /// Removes the tab at `index` and only it: every tab left of it
    /// keeps its place, every tab right of it moves down by one.
    pub fn close_tab(&mut self, index: usize)
        requires
            index < old(self)@.len(),
        ensures
            final(self)@ =~= old(self)@.remove(index as int),
            final(self)@.len() == old(self)@.len() - 1,
            forall|k: int| 0 <= k < index ==> final(self)@[k] == old(self)@[k],
            forall|k: int|
                index <= k < final(self)@.len() ==> final(self)@[k] == old(self)@[k + 1],
    {
        self.tabs.remove(index);
    }
}

/// The row of tabs after creating, one by one and in order, a tab for
/// each element of `added` on a container that held `tabs`. Each
/// creation is one `Notebook::create_tab` call, which appends.
pub open spec fn push_all(tabs: Seq<TabView>, added: Seq<TabView>) -> Seq<TabView>
    decreases added.len(),
{
    if added.len() == 0 {
        tabs
    } else {
        push_all(tabs.push(added[0]), added.drop_first())
    }
}

/// Law: creating N further tabs, for any N >= 0, gives a container of
/// initial-count + N tabs; the tabs already present keep their places,
/// and the new tabs stand strictly after them, in creation order.
pub proof fn lemma_tabs_append_in_order(tabs: Seq<TabView>, added: Seq<TabView>)
    ensures
        push_all(tabs, added).len() == tabs.len() + added.len(),
        forall|k: int| 0 <= k < tabs.len() ==> push_all(tabs, added)[k] == tabs[k],
        forall|k: int|
            0 <= k < added.len() ==> push_all(tabs, added)[tabs.len() + k] == added[k],
    decreases added.len(),
{
    if added.len() > 0 {
        lemma_tabs_append_in_order(tabs.push(added[0]), added.drop_first());
        assert forall|k: int| 0 <= k < tabs.len() implies push_all(tabs, added)[k] == tabs[k] by {
            assert(push_all(tabs.push(added[0]), added.drop_first())[k] == tabs.push(added[0])[k]);
        }
        assert forall|k: int| 0 <= k < added.len() implies push_all(tabs, added)[tabs.len() + k]
            == added[k] by {
            if k == 0 {
                assert(push_all(tabs, added)[tabs.len() as int] == tabs.push(
                    added[0],
                )[tabs.len() as int]);
            } else {
                assert(push_all(tabs.push(added[0]), added.drop_first())[tabs.push(
                    added[0],
                ).len() + (k - 1)] == added.drop_first()[k - 1]);
            }
        }
    }
}

} // verus!
