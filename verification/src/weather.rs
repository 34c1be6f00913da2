//! What the weather tool tells of itself and takes. The readings come from outside this
//! library.

use crate::calculator::{
    make_object_schema, make_of_type, make_strings, names_of, object_schema, of_type, one_of,
};
use crate::json::{Json, JsonView};
use crate::text::same_text;
use crate::tools::{ToolDescriptor, ToolView};
use vstd::prelude::*;

verus! {

/// The units of a temperature.
#[derive(Debug, Clone, Copy, PartialEq, Eq)]
pub enum TemperatureUnits {
    Celsius,
    Fahrenheit,
    Kelvin,
}

impl TemperatureUnits {
    /// The units that `name` names.
    pub open spec fn named(name: Seq<char>) -> Option<TemperatureUnits> {
        if name == "celsius"@ {
            Some(TemperatureUnits::Celsius)
        } else if name == "fahrenheit"@ {
            Some(TemperatureUnits::Fahrenheit)
        } else if name == "kelvin"@ {
            Some(TemperatureUnits::Kelvin)
        } else {
            None
        }
    }

    /// The sign of the units after a reading.
    pub open spec fn sign(self) -> Seq<char> {
        match self {
            TemperatureUnits::Celsius => "°C"@,
            TemperatureUnits::Fahrenheit => "°F"@,
            TemperatureUnits::Kelvin => "K"@,
        }
    }

    /// The units that `name` names.
    pub fn from_name(name: &str) -> (units: Option<TemperatureUnits>)
        ensures
            units == TemperatureUnits::named(name@),
    {
        if same_text(name, "celsius") {
            Some(TemperatureUnits::Celsius)
        } else if same_text(name, "fahrenheit") {
            Some(TemperatureUnits::Fahrenheit)
        } else if same_text(name, "kelvin") {
            Some(TemperatureUnits::Kelvin)
        } else {
            None
        }
    }

    /// The sign of the units after a reading.
    pub fn symbol(&self) -> (sign: &'static str)
        ensures
            sign@ == self.sign(),
    {
        match self {
            TemperatureUnits::Celsius => "°C",
            TemperatureUnits::Fahrenheit => "°F",
            TemperatureUnits::Kelvin => "K",
        }
    }
}

/// The parameters of a weather query.
#[derive(Debug)]
pub struct WeatherParams {
    pub location: String,
    pub units: Option<TemperatureUnits>,
}

/// What is wrong with the parameters of a weather query, if anything: they must be an object
/// with a string `location`; `units`, where it is there and not `null`, must name units.
pub open spec fn weather_fault(parameters: JsonView) -> Option<Seq<char>> {
    if !(parameters is Object) {
        Some("invalid type: expected an object"@)
    } else {
        match parameters.member("location"@) {
            None => Some("missing field `location`"@),
            Some(l) => if !(l is String) {
                Some("invalid type for `location`: expected a string"@)
            } else {
                match parameters.member("units"@) {
                    None => None,
                    Some(u) => if u is Null {
                        None
                    } else {
                        match u.text() {
                            None => Some("invalid type for `units`: expected a string"@),
                            Some(name) => if TemperatureUnits::named(name) is Some {
                                None
                            } else {
                                Some(
                                    "unknown variant for `units`: expected one of `celsius`, `fahrenheit`, `kelvin`"@,
                                )
                            },
                        }
                    },
                }
            },
        }
    }
}

/// The units that the parameters of a weather query ask for.
pub open spec fn weather_units(parameters: JsonView) -> Option<TemperatureUnits> {
    match parameters.text_member("units"@) {
        Some(name) => TemperatureUnits::named(name),
        None => None,
    }
}

impl WeatherParams {
    /// Reads the parameters of a weather query.
    pub fn from_json(parameters: &Json) -> (r: Result<WeatherParams, String>)
        ensures
            match r {
                Ok(p) => weather_fault(parameters@) is None && parameters@.text_member("location"@)
                    == Some(p.location@) && p.units == weather_units(parameters@),
                Err(fault) => weather_fault(parameters@) == Some(fault@),
            },
    {
        if !parameters.is_object() {
            return Err("invalid type: expected an object".to_owned());
        }
        let location = match parameters.get("location") {
            None => {
                return Err("missing field `location`".to_owned());
            },
            Some(l) => match l.as_str() {
                None => {
                    return Err("invalid type for `location`: expected a string".to_owned());
                },
                Some(text) => text.to_owned(),
            },
        };
        let units = match parameters.get("units") {
            None => None,
            Some(u) => if u.is_null() {
                None
            } else {
                match u.as_str() {
                    None => {
                        return Err("invalid type for `units`: expected a string".to_owned());
                    },
                    Some(name) => match TemperatureUnits::from_name(name) {
                        Some(units) => Some(units),
                        None => {
                            return Err(
                                "unknown variant for `units`: expected one of `celsius`, `fahrenheit`, `kelvin`".to_owned(),
                            );
                        },
                    },
                }
            },
        };
        Ok(WeatherParams { location, units })
    }
}

/// The schema of the parameters of a weather query.
pub open spec fn weather_schema() -> JsonView {
    object_schema(
        JsonView::object2(
            "location"@,
            of_type("string"@),
            "units"@,
            one_of(seq!["celsius"@, "fahrenheit"@, "kelvin"@]),
        ),
        seq!["location"@],
    )
}

/// The weather tool.
#[derive(Debug)]
pub struct WeatherTool;

impl WeatherTool {
    /// The weather tool.
    pub fn new() -> (tool: WeatherTool)
        ensures
            tool == WeatherTool,
    {
        WeatherTool
    }

    /// The name under which the tool is called.
    pub fn name(&self) -> (name: &'static str)
        ensures
            name@ == "weather"@,
    {
        "weather"
    }

    /// What the tool does.
    pub fn description(&self) -> (description: &'static str)
        ensures
            description@
                == "Get current weather information for a location (mock implementation)"@,
    {
        "Get current weather information for a location (mock implementation)"
    }

    /// The schema of the tool's parameters.
    pub fn parameters_schema(&self) -> (schema: Json)
        ensures
            schema@ == weather_schema(),
    {
        let units: [&'static str; 3] = ["celsius", "fahrenheit", "kelvin"];
        let required: [&'static str; 1] = ["location"];
        proof {
            assert(names_of(units@) =~= seq!["celsius"@, "fahrenheit"@, "kelvin"@]);
            assert(names_of(required@) =~= seq!["location"@]);
        }
        let units_schema = make_of_type("string").with("enum", make_strings(units.as_slice()));
        let properties = Json::object().with("location", make_of_type("string")).with(
            "units",
            units_schema,
        );
        make_object_schema(properties, required.as_slice())
    }

    /// What the tool tells of itself.
    pub fn descriptor(&self) -> (tool: ToolDescriptor)
        ensures
            tool@ == (ToolView {
                name: "weather"@,
                description: "Get current weather information for a location (mock implementation)"@,
                parameters: weather_schema(),
            }),
    {
        ToolDescriptor::new(self.name(), self.description(), self.parameters_schema())
    }
}

impl Default for WeatherTool {
    fn default() -> (tool: WeatherTool)
        ensures
            tool == WeatherTool,
    {
        WeatherTool::new()
    }
}

} // verus!
