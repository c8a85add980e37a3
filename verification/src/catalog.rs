//! The search provider's catalog schema and the menu model shown to the
//! front end, with the projection from one to the other.

use vstd::prelude::*;

verus! {

/// One thumbnail variant of a catalog item.
#[derive(Debug, PartialEq, Eq)]
pub struct Thumbnail {
    pub url: String,
    pub width: u32,
    pub height: u32,
}

/// What a [`Thumbnail`] holds.
pub struct ThumbnailView {
    pub url: Seq<char>,
    pub width: u32,
    pub height: u32,
}

impl View for Thumbnail {
    type V = ThumbnailView;

    open spec fn view(&self) -> ThumbnailView {
        ThumbnailView { url: self.url@, width: self.width, height: self.height }
    }
}

impl Clone for Thumbnail {
    fn clone(&self) -> (copy: Self)
        ensures
            copy@ == self@,
    {
        Thumbnail { url: self.url.clone(), width: self.width, height: self.height }
    }
}

/// The three thumbnail variants that every catalog item carries.
#[derive(Debug, PartialEq, Eq)]
pub struct Thumbnails {
    pub default: Thumbnail,
    pub medium: Thumbnail,
    pub high: Thumbnail,
}

/// What a [`Thumbnails`] set holds.
pub struct ThumbnailsView {
    pub default: ThumbnailView,
    pub medium: ThumbnailView,
    pub high: ThumbnailView,
}

impl View for Thumbnails {
    type V = ThumbnailsView;

    open spec fn view(&self) -> ThumbnailsView {
        ThumbnailsView { default: self.default@, medium: self.medium@, high: self.high@ }
    }
}

impl Clone for Thumbnails {
    fn clone(&self) -> (copy: Self)
        ensures
            copy@ == self@,
    {
        Thumbnails {
            default: self.default.clone(),
            medium: self.medium.clone(),
            high: self.high.clone(),
        }
    }
}

/// The descriptive part of a catalog item, as the provider sends it.
#[derive(Debug, PartialEq, Eq)]
pub struct Snippet {
    pub title: String,
    pub channel_title: String,
    pub thumbnails: Thumbnails,
}

/// What a [`Snippet`] holds.
pub struct SnippetView {
    pub title: Seq<char>,
    pub channel_title: Seq<char>,
    pub thumbnails: ThumbnailsView,
}

impl View for Snippet {
    type V = SnippetView;

    open spec fn view(&self) -> SnippetView {
        SnippetView {
            title: self.title@,
            channel_title: self.channel_title@,
            thumbnails: self.thumbnails@,
        }
    }
}

impl Clone for Snippet {
    fn clone(&self) -> (copy: Self)
        ensures
            copy@ == self@,
    {
        Snippet {
            title: self.title.clone(),
            channel_title: self.channel_title.clone(),
            thumbnails: self.thumbnails.clone(),
        }
    }
}

/// The identifying part of a catalog item.
#[derive(Debug, PartialEq, Eq)]
pub struct Id {
    pub video_id: String,
}

/// What an [`Id`] holds.
pub struct IdView {
    pub video_id: Seq<char>,
}

impl View for Id {
    type V = IdView;

    open spec fn view(&self) -> IdView {
        IdView { video_id: self.video_id@ }
    }
}

impl Clone for Id {
    fn clone(&self) -> (copy: Self)
        ensures
            copy@ == self@,
    {
        Id { video_id: self.video_id.clone() }
    }
}

/// One item of the provider's catalog.
#[derive(Debug, PartialEq, Eq)]
pub struct Item {
    pub snippet: Snippet,
    pub id: Id,
}

/// What an [`Item`] holds.
pub struct ItemView {
    pub snippet: SnippetView,
    pub id: IdView,
}

impl View for Item {
    type V = ItemView;

    open spec fn view(&self) -> ItemView {
        ItemView { snippet: self.snippet@, id: self.id@ }
    }
}

impl Clone for Item {
    fn clone(&self) -> (copy: Self)
        ensures
            copy@ == self@,
    {
        Item { snippet: self.snippet.clone(), id: self.id.clone() }
    }
}

/// The provider's answer to one search: its items, in the provider's order.
#[derive(Debug, PartialEq, Eq)]
pub struct YoutubeResponse {
    pub items: Vec<Item>,
}

impl View for YoutubeResponse {
    type V = Seq<ItemView>;

    open spec fn view(&self) -> Seq<ItemView> {
        Seq::new(self.items@.len(), |i: int| self.items@[i]@)
    }
}

impl Clone for YoutubeResponse {
    fn clone(&self) -> (copy: Self)
        ensures
            copy@ == self@,
    {
        let mut items: Vec<Item> = Vec::new();
        let n: usize = self.items.len();
        let mut i: usize = 0;
        while i < n
            invariant
                n == self.items@.len(),
                i <= n,
                items@.len() == i,
                forall|k: int| 0 <= k < i ==> (#[trigger] items@[k])@ == self.items@[k]@,
            decreases n - i,
        {
            items.push(self.items[i].clone());
            i = i + 1;
        }
        let copy = YoutubeResponse { items };
        assert(copy@ =~= self@);
        copy
    }
}

/// One entry of the menu: a playable item as the front end sees it.
#[derive(Debug, PartialEq, Eq)]
pub struct MenuItem {
    pub title: String,
    pub artist: String,
    pub video_id: String,
    pub thumbnails: Thumbnails,
}

/// What a [`MenuItem`] holds.
pub struct MenuItemView {
    pub title: Seq<char>,
    pub artist: Seq<char>,
    pub video_id: Seq<char>,
    pub thumbnails: ThumbnailsView,
}

impl View for MenuItem {
    type V = MenuItemView;

    open spec fn view(&self) -> MenuItemView {
        MenuItemView {
            title: self.title@,
            artist: self.artist@,
            video_id: self.video_id@,
            thumbnails: self.thumbnails@,
        }
    }
}

impl Clone for MenuItem {
    fn clone(&self) -> (copy: Self)
        ensures
            copy@ == self@,
    {
        MenuItem {
            title: self.title.clone(),
            artist: self.artist.clone(),
            video_id: self.video_id.clone(),
            thumbnails: self.thumbnails.clone(),
        }
    }
}

/// The menu returned for one search. An empty menu means "no matches".
#[derive(Debug, PartialEq, Eq)]
pub struct MenuResponse {
    pub items: Vec<MenuItem>,
}

impl View for MenuResponse {
    type V = Seq<MenuItemView>;

    open spec fn view(&self) -> Seq<MenuItemView> {
        Seq::new(self.items@.len(), |i: int| self.items@[i]@)
    }
}

/// The menu entry that stands for a catalog item: every field is taken over
/// unchanged, the channel title becoming the artist.
pub open spec fn menu_item_of(item: ItemView) -> MenuItemView {
    MenuItemView {
        title: item.snippet.title,
        artist: item.snippet.channel_title,
        video_id: item.id.video_id,
        thumbnails: item.snippet.thumbnails,
    }
}

/// The menu that stands for a catalog: one entry per item, in the same order.
pub open spec fn menu_of(catalog: Seq<ItemView>) -> Seq<MenuItemView> {
    Seq::new(catalog.len(), |i: int| menu_item_of(catalog[i]))
}

impl MenuItem {
    /// Projects one catalog item to its menu entry.
    pub fn from_item(item: &Item) -> (entry: MenuItem)
        ensures
            entry@ == menu_item_of(item@),
    {
        MenuItem {
            title: item.snippet.title.clone(),
            artist: item.snippet.channel_title.clone(),
            video_id: item.id.video_id.clone(),
            thumbnails: item.snippet.thumbnails.clone(),
        }
    }
}

impl MenuResponse {
    /// Projects a whole catalog to a menu. Nothing is filtered, merged or
    /// reordered.
    pub fn from_catalog(catalog: &YoutubeResponse) -> (menu: MenuResponse)
        ensures
            menu@ == menu_of(catalog@),
    {
        let mut items: Vec<MenuItem> = Vec::new();
        let n: usize = catalog.items.len();
        let mut i: usize = 0;
        while i < n
            invariant
                n == catalog.items@.len(),
                i <= n,
                items@.len() == i,
                forall|k: int| 0 <= k < i ==> (#[trigger] items@[k])@ == menu_item_of(catalog.items@[k]@),
            decreases n - i,
        {
            let entry = MenuItem::from_item(&catalog.items[i]);
            items.push(entry);
            i = i + 1;
        }
        let menu = MenuResponse { items };
        assert(menu@ =~= menu_of(catalog@));
        menu
    }
}

} // verus!
