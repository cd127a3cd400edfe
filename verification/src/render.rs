//! Rendering of the human-readable report: a fixed sequence of lines built
//! from the report's fields and the unit suffix, reproduced verbatim.

use vstd::prelude::*;
use vstd::string::StringExecFns;
use crate::report::ApiResult;
use crate::units::Units;
use crate::units::spec_suffix;

verus! {

/// The exact lines of the rendered report, in print order.
pub open spec fn spec_report_lines(r: ApiResult, u: Units) -> Seq<Seq<char>> {
    seq![
        ""@,
        "-----------------------"@,
        r.name@,
        "---"@,
        "Temperature : "@ + r.main.temp@ + spec_suffix(u),
        "Min : "@ + r.main.temp_min@ + spec_suffix(u) + "   /  Max : "@ + r.main.temp_max@
            + spec_suffix(u),
        "Feels like : "@ + r.main.feels_like@ + spec_suffix(u),
        "-----------------------"@,
    ]
}

/// Render the report for one city: exactly the lines of
/// `spec_report_lines`, each to be printed on its own line.
pub fn render_report(r: &ApiResult, units: &Units) -> (lines: Vec<String>)
    ensures
        lines.deep_view() == spec_report_lines(*r, *units),
{
    let mut lines: Vec<String> = Vec::new();
    lines.push("".to_owned());
    lines.push("-----------------------".to_owned());
    lines.push(r.name.clone());
    lines.push("---".to_owned());

    let mut temp_line = "Temperature : ".to_owned();
    let temp = units.display(r.main.temp.as_str());
    temp_line.append(temp.as_str());
    lines.push(temp_line);

    let mut minmax_line = "Min : ".to_owned();
    let temp_min = units.display(r.main.temp_min.as_str());
    minmax_line.append(temp_min.as_str());
    minmax_line.append("   /  Max : ");
    let temp_max = units.display(r.main.temp_max.as_str());
    minmax_line.append(temp_max.as_str());
    lines.push(minmax_line);

    let mut feels_line = "Feels like : ".to_owned();
    let feels = units.display(r.main.feels_like.as_str());
    feels_line.append(feels.as_str());
    lines.push(feels_line);

    lines.push("-----------------------".to_owned());
    proof {
        assert(lines.deep_view() =~~= spec_report_lines(*r, *units));
    }
    lines
}

} // verus!
