//! The texts and the data that are built into the library.

use vstd::prelude::*;

verus! {

/// The name under which the layout is registered with the engine.
pub const LAYOUT_NAME: &'static str = "layout_page";

/// The field of the data under which templates find the plant names.
pub const PLANTS_FIELD: &'static str = "plants";

/// The name under which the upper-case helper is registered with the engine.
pub const UPPERCASE_HELPER: &'static str = "uppercase";

/// The layout: a page frame around whatever block a template hands to it.
pub const LAYOUT: &'static str = "<!DOCTYPE html>
<html>
  <head>
    <meta charset=\"utf-8\">
    <title>Kitchen garden</title>
  </head>
  <body>
    {{> @partial-block}}
  </body>
</html>
";

/// The content: the list of what was planted, one item for each plant.
pub const PLANTINGS_LIST: &'static str = "<h2>Plantings 2020</h2>
<ul>
{{#each plants}}
  <li>{{this}}</li>
{{/each}}
</ul>
";

/// The data that a template is expanded against: the names of the plants, in
/// the order in which they are listed.
#[derive(Debug)]
pub struct DataPayload {
    pub plants: Vec<String>,
}

impl View for DataPayload {
    type V = Seq<Seq<char>>;

    open spec fn view(&self) -> Seq<Seq<char>> {
        self.plants.deep_view()
    }
}

/// The names of the plants of the season, in planting order.
pub open spec fn plant_names() -> Seq<Seq<char>> {
    seq![
        "green beans"@,
        "tomatoes"@,
        "peas"@,
        "zucchini"@,
        "peppers"@,
        "cucumbers"@,
        "soy beans"@,
        "corn"@,
        "melons"@,
    ]
}

/// The data of the season.
pub fn plantings() -> (data: DataPayload)
    ensures
        data@ == plant_names(),
{
    let mut plants: Vec<String> = Vec::new();
    plants.push("green beans".to_owned());
    plants.push("tomatoes".to_owned());
    plants.push("peas".to_owned());
    plants.push("zucchini".to_owned());
    plants.push("peppers".to_owned());
    plants.push("cucumbers".to_owned());
    plants.push("soy beans".to_owned());
    plants.push("corn".to_owned());
    plants.push("melons".to_owned());
    assert(plants.deep_view() =~= plant_names());
    DataPayload { plants }
}

} // verus!
