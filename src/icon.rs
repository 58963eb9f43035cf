use vstd::prelude::*;
use vstd::string::StringExecFns;

verus! {

/// The asset path of the image for `slug`.
pub open spec fn icon_path(slug: Seq<char>) -> Seq<char> {
    "/images/items/"@ + slug + "_64.png"@
}

/// Get the icon path for a given slug name.
pub fn slug_to_icon(slug: &str) -> (r: String)
    ensures
        r@ == icon_path(slug@),
{
    let mut icon = "/images/items/".to_owned();
    icon.append(slug);
    icon.append("_64.png");
    icon
}

/// What an icon is asked to show.
#[derive(Debug)]
pub struct Props {
    /// Reference to the icon slug.
    pub icon: Option<String>,
    pub alt: Option<String>,
}

/// What an icon shows: an image, or the error glyph when there is no slug.
#[derive(Debug)]
pub enum IconView {
    Image { src: String, alt: Option<String> },
    Missing,
}

/// Resolves an icon: the image of its slug, or the error glyph without one.
pub fn icon(props: &Props) -> (r: IconView)
    ensures
        props.icon is None ==> r is Missing,
        props.icon is Some ==> r is Image && r->src@ == icon_path(props.icon->Some_0@) && r->alt
            == props.alt,
{
    match &props.icon {
        Some(slug) => IconView::Image { src: slug_to_icon(slug.as_str()), alt: props.alt.clone() },
        None => IconView::Missing,
    }
}

/// What the item database knows of an item.
#[derive(Debug)]
pub struct ItemInfo {
    /// Slug of the item's image.
    pub image: String,
    /// Name shown for the item.
    pub name: String,
}

/// The icon of the power row of a balance.
pub fn power_icon() -> (r: String)
    ensures
        r@ == icon_path("power-line"@),
{
    slug_to_icon("power-line")
}

/// The icon path and label of a balance row for an item, given what the
/// database returned for its id. An item the database does not know gets the
/// fallback icon and the label "unknown".
pub fn item_entry(item: Option<&ItemInfo>) -> (r: (String, String))
    ensures
        item is Some ==> r.0@ == icon_path(item->Some_0.image@) && r.1@ == item->Some_0.name@,
        item is None ==> r.0@ == icon_path("expanded-power-infrastructure"@) && r.1@ == "unknown"@,
{
    match item {
        Some(info) => (slug_to_icon(info.image.as_str()), info.name.as_str().to_owned()),
        None => (slug_to_icon("expanded-power-infrastructure"), "unknown".to_owned()),
    }
}

} // verus!
