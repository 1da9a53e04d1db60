//! Items as bundles of optional capability facets: an item carries zero or
//! more facets, and a missing facet means the capability is unsupported, not
//! an error.

use vstd::prelude::*;

verus! {

/// An RGBA color as plain byte channels; the rendering collaborator maps it
/// to whatever color type it draws with.
#[derive(Clone, Copy, Debug, PartialEq, Eq, Structural)]
pub struct Color {
    pub r: u8,
    pub g: u8,
    pub b: u8,
    pub a: u8,
}

/// The nameable facet: a display name.
#[derive(Clone, Debug)]
pub struct Named {
    pub name: String,
}

/// The colorable facet: a tint applied when drawing.
#[derive(Clone, Debug)]
pub struct Colored {
    pub color: Color,
}

/// The readable facet: text surfaced to the log when the item is read.
#[derive(Clone, Debug)]
pub struct Readable {
    pub text: String,
}

/// The render-key facet: an opaque key the rendering collaborator resolves;
/// this core does not validate it.
#[derive(Clone, Debug)]
pub struct LookLike {
    pub look_like: String,
}

/// The wearable facet; its equipment-slot data belongs to collaborators
/// outside this core.
#[derive(Clone, Debug)]
pub struct Wearable {}

/// An item instance: a bundle of optional facets. Every facet is
/// independently queryable, and callers check presence before use.
#[derive(Clone, Debug)]
pub struct Item {
    pub named: Option<Named>,
    pub colored: Option<Colored>,
    pub readable: Option<Readable>,
    pub look_like: Option<LookLike>,
    pub wearable: Option<Wearable>,
}

impl Item {
    /// An item with no facets at all.
    pub fn new() -> (r: Item)
        ensures
            r.named is None,
            r.colored is None,
            r.readable is None,
            r.look_like is None,
            r.wearable is None,
    {
        Item { named: None, colored: None, readable: None, look_like: None, wearable: None }
    }

    pub fn with_name(self, name: String) -> (r: Item)
        ensures
            r == (Item { named: Some(Named { name }), ..self }),
    {
        Item { named: Some(Named { name }), ..self }
    }

    pub fn with_color(self, color: Color) -> (r: Item)
        ensures
            r == (Item { colored: Some(Colored { color }), ..self }),
    {
        Item { colored: Some(Colored { color }), ..self }
    }

    pub fn with_text(self, text: String) -> (r: Item)
        ensures
            r == (Item { readable: Some(Readable { text }), ..self }),
    {
        Item { readable: Some(Readable { text }), ..self }
    }

    pub fn with_look(self, look_like: String) -> (r: Item)
        ensures
            r == (Item { look_like: Some(LookLike { look_like }), ..self }),
    {
        Item { look_like: Some(LookLike { look_like }), ..self }
    }

    pub fn with_wearable(self) -> (r: Item)
        ensures
            r == (Item { wearable: Some(Wearable {}), ..self }),
    {
        Item { wearable: Some(Wearable {}), ..self }
    }

    pub fn is_named(&self) -> (r: bool)
        ensures
            r == (self.named is Some),
    {
        self.named.is_some()
    }

    /// The display name; the nameable facet must be present.
    pub fn name(&self) -> (r: &String)
        requires
            self.named is Some,
        ensures
            self.named matches Some(n) && n.name == *r,
    {
        match &self.named {
            Some(n) => &n.name,
            None => unreached(),
        }
    }

    pub fn is_colored(&self) -> (r: bool)
        ensures
            r == (self.colored is Some),
    {
        self.colored.is_some()
    }

    /// The tint; the colorable facet must be present.
    pub fn color(&self) -> (r: Color)
        requires
            self.colored is Some,
        ensures
            self.colored matches Some(c) && c.color == r,
    {
        match &self.colored {
            Some(c) => c.color,
            None => unreached(),
        }
    }

    pub fn is_readable(&self) -> (r: bool)
        ensures
            r == (self.readable is Some),
    {
        self.readable.is_some()
    }

    /// The readable text; the readable facet must be present.
    pub fn read(&self) -> (r: &String)
        requires
            self.readable is Some,
        ensures
            self.readable matches Some(t) && t.text == *r,
    {
        match &self.readable {
            Some(t) => &t.text,
            None => unreached(),
        }
    }

    pub fn has_look(&self) -> (r: bool)
        ensures
            r == (self.look_like is Some),
    {
        self.look_like.is_some()
    }

    /// The render key; the render-key facet must be present.
    pub fn looks_like(&self) -> (r: &String)
        requires
            self.look_like is Some,
        ensures
            self.look_like matches Some(l) && l.look_like == *r,
    {
        match &self.look_like {
            Some(l) => &l.look_like,
            None => unreached(),
        }
    }

    pub fn is_wearable(&self) -> (r: bool)
        ensures
            r == (self.wearable is Some),
    {
        self.wearable.is_some()
    }
}

} // verus!
