# Nimbus

A minimal weather tray application. The verified library (`src/`) holds its
decisions and data shaping; `app/` holds the window, tray, network and file
plumbing around it.

- `config`: tray temperature choice, units, refresh intervals, settings records.
- `weather`: WMO code descriptions and symbols, compass points, turning a
  forecast response into current conditions and a forecast of at most a week.
- `geo`: place labels, the city search address, accepting an IP location.
- `tray`: which picture the tray icon shows for a weather code.
- `control`: the application's reaction to each event (requests, windows,
  automatic refresh), with proofs that requests do not overlap while no configuration is saved.
- `settings`: when the debounced city search runs.
- `text`: trimming and decimal notation used by the above.

Floating-point values (temperatures, coordinates) pass through the library as
a type parameter; `app/` instantiates it with `f32` and `f64`.

The settings file is `~/.config/nimbus/config.toml`:

```toml
city_name = "Kyiv"
latitude = 50.45
longitude = 30.52
tray_temp = "actual"      # or "feels_like"
refresh_interval = "30"   # "15", "30", or "60"
temp_unit = "celsius"     # or "fahrenheit"; optional
```

The tray pictures are read from an `assets` directory beside the executable
(`icon_sun.png`, `icon_cloud.png`, `icon_rain.png`, `icon_snow.png`).
