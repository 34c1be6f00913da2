use tiny_agent_rs::calculator::{CalculatorTool, Operation};
use tiny_agent_rs::json::Json;
use tiny_agent_rs::tools::{FunctionFactory, ToolDescriptor, ToolRegistry};
use tiny_agent_rs::weather::{TemperatureUnits, WeatherParams, WeatherTool};

#[test]
fn test_tool_schemas() {
    let calculator = CalculatorTool::new();
    let weather = WeatherTool::new();

    // Test that schemas are valid JSON
    let calc_schema = calculator.parameters_schema();
    assert!(calc_schema.is_object());
    assert!(calc_schema.get("properties").is_some());

    let weather_schema = weather.parameters_schema();
    assert!(weather_schema.is_object());
    assert!(weather_schema.get("properties").is_some());
}

#[test]
fn factory_knows_its_tools() {
    let mut factory = FunctionFactory::new();
    factory.register_tool(CalculatorTool::new().descriptor());
    factory.register_tool(WeatherTool::new().descriptor());

    assert!(factory.has_function("calculator"));
    assert!(factory.has_function("weather"));
    assert!(!factory.has_function("nonexistent"));
    assert_eq!(factory.get("weather").unwrap().name, "weather");
    assert!(factory.get("nonexistent").is_none());
    assert_eq!(factory.tools().len(), 2);
}

#[test]
fn builtin_tools_describe_themselves() {
    let calculator = CalculatorTool::new();
    assert_eq!(calculator.name(), "calculator");
    assert_eq!(
        calculator.description(),
        "Perform basic arithmetic operations (add, subtract, multiply, divide, power)"
    );
    assert_eq!(
        calculator.parameters_schema().to_text(),
        "{\"properties\":{\"a\":{\"type\":\"number\"},\"b\":{\"type\":\"number\"},\"operation\":{\"enum\":[\"add\",\"subtract\",\"multiply\",\"divide\",\"power\"],\"type\":\"string\"}},\"required\":[\"operation\",\"a\",\"b\"],\"type\":\"object\"}"
    );
    let weather = WeatherTool::new();
    assert_eq!(weather.name(), "weather");
    assert_eq!(
        weather.description(),
        "Get current weather information for a location (mock implementation)"
    );
    assert_eq!(
        weather.parameters_schema().to_text(),
        "{\"properties\":{\"location\":{\"type\":\"string\"},\"units\":{\"enum\":[\"celsius\",\"fahrenheit\",\"kelvin\"],\"type\":\"string\"}},\"required\":[\"location\"],\"type\":\"object\"}"
    );
}

#[test]
fn later_registration_wins() {
    let mut registry = ToolRegistry::new();
    registry.register(ToolDescriptor::new("a", "first a", Json::object()));
    registry.register(ToolDescriptor::new("b", "the b", Json::object()));
    registry.register(ToolDescriptor::new("a", "second a", Json::object()));
    let tools = registry.list();
    assert_eq!(tools.len(), 2);
    assert_eq!(tools[0].name, "a");
    assert_eq!(tools[0].description, "second a");
    assert_eq!(tools[1].name, "b");
    assert_eq!(registry.get("a").unwrap().description, "second a");
    assert!(registry.get("c").is_none());
}

#[test]
fn wire_tools_are_function_tools() {
    let mut factory = FunctionFactory::new();
    assert!(factory.get_openai_tools().is_empty());
    factory.register_tool(CalculatorTool::new().descriptor());
    factory.register_tool(WeatherTool::new().descriptor());
    factory.register_tool(ToolDescriptor::new(
        "echo",
        "Say it again",
        Json::object().with("type", Json::string("object")),
    ));
    let wire = factory.get_openai_tools();
    assert_eq!(wire.len(), 3);
    let mut names = Vec::new();
    for entry in &wire {
        assert_eq!(entry.get_str("type"), Some("function"));
        let function = entry.get("function").unwrap();
        let name = function.get_str("name").unwrap();
        assert!(!name.is_empty());
        assert!(!function.get_str("description").unwrap().is_empty());
        assert!(function.get("parameters").unwrap().is_object());
        names.push(name.to_string());
    }
    names.sort();
    assert_eq!(names, vec!["calculator", "echo", "weather"]);
    assert_eq!(
        wire[2].to_text(),
        "{\"function\":{\"description\":\"Say it again\",\"name\":\"echo\",\"parameters\":{\"type\":\"object\"}},\"type\":\"function\"}"
    );
}

#[test]
fn operations_have_their_names() {
    for (name, operation) in [
        ("add", Operation::Add),
        ("subtract", Operation::Subtract),
        ("multiply", Operation::Multiply),
        ("divide", Operation::Divide),
        ("power", Operation::Power),
    ] {
        assert_eq!(Operation::from_name(name), Some(operation));
        assert_eq!(operation.name(), name);
    }
    assert_eq!(Operation::from_name("Add"), None);
    assert_eq!(Operation::from_name(""), None);
}

#[test]
fn weather_params_are_read_from_json() {
    let params = WeatherParams::from_json(
        &Json::object().with("location", Json::string("New York")).with("units", Json::string("celsius")),
    )
    .unwrap();
    assert_eq!(params.location, "New York");
    assert_eq!(params.units, Some(TemperatureUnits::Celsius));
    assert_eq!(params.units.unwrap().symbol(), "°C");
    assert_eq!(TemperatureUnits::Fahrenheit.symbol(), "°F");
    assert_eq!(TemperatureUnits::Kelvin.symbol(), "K");
    let plain = WeatherParams::from_json(&Json::object().with("location", Json::string("Oslo")).with("units", Json::Null)).unwrap();
    assert_eq!(plain.units, None);
    assert_eq!(WeatherParams::from_json(&Json::object()).unwrap_err(), "missing field `location`");
    assert_eq!(
        WeatherParams::from_json(&Json::object().with("location", Json::from_u64(1))).unwrap_err(),
        "invalid type for `location`: expected a string"
    );
    assert_eq!(
        WeatherParams::from_json(&Json::object().with("location", Json::string("x")).with("units", Json::string("rankine"))).unwrap_err(),
        "unknown variant for `units`: expected one of `celsius`, `fahrenheit`, `kelvin`"
    );
    assert_eq!(
        WeatherParams::from_json(&Json::object().with("location", Json::string("x")).with("units", Json::Bool(true))).unwrap_err(),
        "invalid type for `units`: expected a string"
    );
    assert_eq!(WeatherParams::from_json(&Json::array(Vec::new())).unwrap_err(), "invalid type: expected an object");
}
