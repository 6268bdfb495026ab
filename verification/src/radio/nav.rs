//! Navigation: the menus of the device and its presets.

use crate::node::Node;
use crate::number::{decimal, decimal_spec};
use crate::radio::error::Error;
use crate::radio::plan::Write;
use crate::value::{Item, Value};
use vstd::prelude::*;

verus! {

/// The state of navigation, and the names of the presets.
#[derive(Debug, PartialEq, Eq)]
pub struct Nav {
    pub state: bool,
    pub presets: Vec<String>,
}

/// The first field of the record is a text.
pub open spec fn is_named(item: Item) -> bool {
    item.fields.len() > 0 && item.fields[0].value is Text
}

/// The name of a record: the text of its first field.
pub open spec fn name_of(item: Item) -> Seq<char> {
    item.fields[0].value->Text_0@
}

/// The names of the presets in a list: those of its records up to the first
/// one with an empty name. A record without a text for a name makes the list
/// useless.
pub open spec fn preset_names(items: Seq<Item>) -> Result<Seq<Seq<char>>, Error>
    decreases items.len(),
{
    if items.len() == 0 {
        Ok(Seq::<Seq<char>>::empty())
    } else if !is_named(items[0]) {
        Err(Error::Oops)
    } else if name_of(items[0]).len() == 0 {
        Ok(Seq::<Seq<char>>::empty())
    } else {
        match preset_names(items.skip(1)) {
            Ok(rest) => Ok(seq![name_of(items[0])] + rest),
            Err(e) => Err(e),
        }
    }
}

/// The texts of a sequence of strings.
pub open spec fn texts(names: Seq<String>) -> Seq<Seq<char>> {
    names.map_values(|s: String| s@)
}

/// `names`, then what the rest of the list gives.
pub open spec fn then_names(names: Seq<Seq<char>>, rest: Result<Seq<Seq<char>>, Error>) -> Result<
    Seq<Seq<char>>,
    Error,
> {
    match rest {
        Ok(more) => Ok(names + more),
        Err(e) => Err(e),
    }
}

impl Nav {
    /// The write that switches navigation on.
    pub fn enable() -> (write: Write)
        ensures
            write.node == Node::NavState,
            write.value@ == decimal_spec(1),
    {
        Write { node: Node::NavState, value: decimal(1) }
    }

    /// Navigation, switched on, with the presets that the device lists.
    pub fn new(presets: Vec<Item>) -> (r: Result<Nav, Error>)
        ensures
            match r {
                Ok(nav) => nav.state && preset_names(presets@) == Ok::<_, Error>(
                    texts(nav.presets@),
                ),
                Err(e) => preset_names(presets@) == Err::<Seq<Seq<char>>, _>(e),
            },
    {
        let mut names: Vec<String> = Vec::new();
        let mut i: usize = 0;
        assert(presets@.skip(0) =~= presets@);
        while i < presets.len()
            invariant
                i <= presets.len(),
                preset_names(presets@) == then_names(
                    texts(names@),
                    preset_names(presets@.skip(i as int)),
                ),
            ensures
                preset_names(presets@) == Ok::<_, Error>(texts(names@)),
            decreases presets.len() - i,
        {
            let ghost rest = presets@.skip(i as int);
            let ghost before = texts(names@);
            assert(rest.skip(1) =~= presets@.skip(i + 1));
            let fields = &presets[i].fields;
            if fields.len() == 0 {
                return Err(Error::Oops);
            }
            match &fields[0].value {
                Value::Text(s) => {
                    if s.as_str().is_empty() {
                        break;
                    }
                    let name = s.clone();
                    proof {
                        assert(texts(names@.push(name)) =~= before.push(name@));
                        if let Ok(more) = preset_names(rest.skip(1)) {
                            assert(before + (seq![name@] + more) =~= before.push(name@) + more);
                        }
                    }
                    names.push(name);
                },
                _ => {
                    return Err(Error::Oops);
                },
            }
            i += 1;
        }
        Ok(Nav { state: true, presets: names })
    }

    /// Selects a preset.
    pub fn preset_select(preset: u32) -> (write: Write)
        ensures
            write.node == Node::NavState,
            write.value@ == decimal_spec(preset as int),
    {
        Write { node: Node::NavState, value: decimal(preset as u64) }
    }
}

} // verus!
