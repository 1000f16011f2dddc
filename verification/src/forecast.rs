//! The daily forecast: a paragraph for a planet's motion through a sign.
use vstd::prelude::*;
use crate::planets::{Element, MoonPhase, Planet, PlanetaryPosition};

verus! {

/// Mars: the text before and after the sign's name, by motion (direct,
/// retrograde) and by element (Fire, Earth, Air, Water).
pub const MARS_FORECASTS: [[[&'static str; 2]; 4]; 2] = [
    [
        [
            "Mars blazes through ",
            " with reckless abandon! Your compilation burns with cosmic fire. \
             Expect the unexpected — the stars promise chaos, but glorious chaos!",
        ],
        [
            "Mars marches steadily through ",
            ", your CPU cores disciplined as Roman legions. Compilation proceeds \
             with earthy determination. Slow? Yes. But it will finish. Eventually.",
        ],
        [
            "Mars dances through ",
            ", threads pirouetting on celestial breezes. Your code compiles \
             swiftly, borne aloft by cosmic tailwinds. May your linker be ever in \
             your favor.",
        ],
        [
            "Mars flows through ",
            ", your build process surging like a river in flood. Powerful, fluid, \
             slightly unpredictable. Keep your Makefile dry.",
        ],
    ],
    [
        [
            "Mars retreats through ",
            ", its war-drums muffled by cosmic static. Your CPU cores are present, \
             but emotionally unavailable. Recompile with lower expectations — and \
             maybe a snack.",
        ],
        [
            "Mars trudges backward through ",
            ", dragging its compile flags through the mud. Progress is measured in \
             geological epochs. Consider a nap. Or three.",
        ],
        [
            "Mars spirals retrograde through airy ",
            ", scattering your build artifacts like autumn leaves. The linker \
             weeps. Your patience will be tested by the cosmos and the cache.",
        ],
        [
            "Mars drifts backward through watery ",
            ", your compilation submerged in cosmic molasses. Threads stall. Cores \
             dream. Breathe deep — even Olympus had compile errors.",
        ],
    ],
];

/// Mercury: the text before and after the sign's name, by motion (direct,
/// retrograde) and by element (Fire, Earth, Air, Water).
pub const MERCURY_FORECASTS: [[[&'static str; 2]; 4]; 2] = [
    [
        [
            "Mercury races through fiery ",
            "! Packets ignite with purpose, your network blazing trails through the \
             ether. Download speeds ascend. The gods of bandwidth smile.",
        ],
        [
            "Mercury grounds itself in ",
            ", your network traffic steady and reliable as tectonic plates — if \
             slightly slower. Reliable. Predictable. Boringly excellent.",
        ],
        [
            "Mercury soars through ",
            ", packets flowing like starlight through the void! Your connections \
             snap into place with divine efficiency. The cosmic routers are on your \
             side today.",
        ],
        [
            "Mercury drifts through ",
            ", your data streams rippling with gentle purpose. Network traffic \
             flows in tranquil currents. Latency is low. The ocean of bits is calm.",
        ],
    ],
    [
        [
            "Mercury retrograde scorches through ",
            "! Packets combust spontaneously. Your SSH sessions drop not from \
             server error, but from cosmic disapproval. Back up your configs. The \
             stars recommend it urgently.",
        ],
        [
            "Mercury crawls backward through ",
            ", dragging your TCP handshakes through sedimentary time. Every ping a \
             geological event. Consider carrier pigeons as a fallback protocol.",
        ],
        [
            "Mercury double-backs through ",
            ", scattering packets to the four winds. DNS resolves to yesterday. TLS \
             certificates have opinions. The universe apologizes for the \
             inconvenience.",
        ],
        [
            "Mercury swims upstream through ",
            ", your network traffic eddying in cosmic backwash. Latency spikes. \
             Connections time out philosophically. This too shall pass — but slowly.",
        ],
    ],
];

/// Venus: the text before and after the sign's name, by motion (direct,
/// retrograde) and by element (Fire, Earth, Air, Water).
pub const VENUS_FORECASTS: [[[&'static str; 2]; 4]; 2] = [
    [
        [
            "Venus dances through ",
            ", your desktop ablaze with gorgeous frames! Animations are buttery. \
             Icons glow with inner radiance. Your compositor is having the best day \
             of its life.",
        ],
        [
            "Venus settles into ",
            ", your UI solid and dependable as good furniture. No flashy \
             transitions — just honest pixels, rendered with dignity. Sturdy. \
             Reliable. Beautifully understated.",
        ],
        [
            "Venus glides through ",
            ", your desktop elegant as a Viennese waltz. Transitions flow. Fonts \
             kern perfectly. Even your terminal emulator looks a little glamorous \
             today.",
        ],
        [
            "Venus flows through ",
            ", your interface rippling with liquid grace. Smooth gradients. Silky \
             scrolling. Your GTK theme has never looked so spiritually nourishing.",
        ],
    ],
    [
        [
            "Venus retreats through fiery ",
            "! Your desktop flickers with unrequited rendering. Windows refuse to \
             redraw. Icons sulk. Your compositor needs a hug it won't receive.",
        ],
        [
            "Venus trudges backward through ",
            ", your UI elements stubbornly refusing to refresh. Pixel art from a \
             bygone era haunts your screen. Embrace the aesthetic. It is the \
             aesthetic now.",
        ],
        [
            "Venus floats backward through ",
            ", scattering your window layouts to the cosmic breeze. Tiling managers \
             weep. Floating windows float where they will. Resistance is futile and \
             also not calming.",
        ],
        [
            "Venus dissolves backward through ",
            ", your screen smearing like watercolors in rain. Frame rate dips. \
             Vsync becomes an aspiration rather than a guarantee.",
        ],
    ],
];

/// Jupiter: the text before and after the sign's name, by motion (direct,
/// retrograde) and by element (Fire, Earth, Air, Water).
pub const JUPITER_FORECASTS: [[[&'static str; 2]; 4]; 2] = [
    [
        [
            "Jupiter expands through ",
            ", your memory abundant as cosmic fire! The JVM allocates with divine \
             extravagance. Heap size is merely a suggestion. The stars say: request \
             more RAM.",
        ],
        [
            "Jupiter grounds through ",
            ", your memory management solid and methodical. Pages are allocated \
             with deliberate care. Your database grows slowly, like an oak — but \
             magnificent.",
        ],
        [
            "Jupiter soars through ",
            ", your application breathing freely in vast memory expanses! Objects \
             instantiate with joyful abandon. The heap is open sky. Fly, little \
             processes, fly.",
        ],
        [
            "Jupiter flows through ",
            ", your memory pools deep and full. Allocations swim gracefully. The \
             buffer blooms with plenty. Even valgrind is impressed, and valgrind is \
             never impressed.",
        ],
    ],
    [
        [
            "Jupiter retreats through ",
            ", your heap contracting with retrograde indignation. malloc returns \
             NULL as a lifestyle choice. The JVM considers early retirement. Swap \
             space expands to fill the void.",
        ],
        [
            "Jupiter lumbers backward through ",
            ", memory allocations grinding to a geological pace. Your database \
             ponders each query with the philosophical weight of ages. Patience is \
             a virtue; RAM is a commodity.",
        ],
        [
            "Jupiter spirals backward through ",
            ", heap objects drifting loose from their pointers. Memory leaks with \
             cosmic abandon. The garbage collector runs, but it too is retrograde.",
        ],
        [
            "Jupiter drifts backward through ",
            ", your memory pool swirling in retrograde eddies. Cache evictions are \
             frequent and sorrowful. Even Redis is having feelings about it.",
        ],
    ],
];

/// Saturn: the text before and after the sign's name, by motion (direct,
/// retrograde) and by element (Fire, Earth, Air, Water).
pub const SATURN_FORECASTS: [[[&'static str; 2]; 4]; 2] = [
    [
        [
            "Saturn marches through ",
            ", system services snapping to attention! Daemons start promptly. Cron \
             jobs execute with military precision. The kernel is on time, on task, \
             and mildly intimidating.",
        ],
        [
            "Saturn settles through ",
            ", your system stable as continental bedrock. Every syscall lands \
             cleanly. Every daemon persists reliably. This is what peak kernel \
             performance looks like.",
        ],
        [
            "Saturn glides through ",
            ", system processes light and efficient. Interrupt latency is a \
             pleasant fiction. The scheduler hums in tune with the celestial \
             spheres.",
        ],
        [
            "Saturn flows through ",
            ", kernel threads streaming in orderly procession. System calls return \
             swiftly and without drama. The OS is in flow state. Appreciate it \
             while it lasts.",
        ],
    ],
    [
        [
            "Saturn retreats through ",
            ", system daemons questioning their purpose. Cron jobs run when the \
             mood strikes. systemd unit files develop strong opinions about \
             dependency order. Structure unravels, cosmically.",
        ],
        [
            "Saturn grinds backward through ",
            ", your system calls taking the scenic route through kernel space. \
             Everything works. Just... not enthusiastically. The system endures.",
        ],
        [
            "Saturn drifts backward through ",
            ", daemons whispering conflicting instructions to the scheduler. IRQ \
             storms gather on the horizon. Consider rebooting. The stars would \
             understand.",
        ],
        [
            "Saturn ebbs backward through ",
            ", kernel threads pooling in existential eddies. The init system has \
             doubts. journald logs feelings instead of events.",
        ],
    ],
];

/// The Moon, direct: the text after the phase's name and after the sign's name, by element.
pub const MOON_FORECASTS: [[&'static str; 2]; 4] = [
    [
        " Moon blazes through ",
        ", your terminal crackles with interactive energy! Commands execute with \
         passion. Even `ls` feels thrilling.",
    ],
    [
        " Moon grounds through ",
        ", your interactive sessions steady and methodical. Bash history is \
         consulted wisely. Typos are minimal. The cosmos rewards deliberate typing.",
    ],
    [
        " Moon drifts through ",
        ", your shell sessions light and responsive as a feather! Autocomplete \
         flows like poetry. The terminal is your oyster.",
    ],
    [
        " Moon glimmers through ",
        ", your interactive tasks flowing in gentle rhythms. Pipe chains cascade \
         like waterfalls. Your awk one-liners are briefly beautiful.",
    ],
];

/// The Moon, retrograde: the text after the phase's name and after the sign's name.
pub const MOON_RETROGRADE_FORECAST: [&'static str; 2] = [
    " Moon lingers in ",
    ", your shell sessions contemplative and slow. Tab completion pauses to reflect \
     on the nature of file paths. Terminal emulators emit soft sighs.",
];

/// The Moon's phase remark: the text before and after the phase's name.
pub const MOON_PHASE_NOTE: [&'static str; 2] = [" The ", " Moon amplifies your intentions."];

/// The Sun's forecast: the text before the sign, between the sign and the blessing,
/// and after the blessing.
pub const SUN_FORECAST: [&'static str; 3] = [
    "The Sun holds court in ",
    ", and your most critical processes are under direct divine patronage. PID 1 does \
     not negotiate with retrograde. ",
    " All hail the init system.",
];

/// The Sun's blessing near noon, at night, and at other hours.
pub const SUN_BLESSINGS: [&'static str; 3] = [
    "The Sun is near its zenith — critical processes bask in full solar power.",
    "The Sun slumbers below the horizon, yet critical processes never sleep.",
    "The Sun blesses this hour with steady, life-giving radiance.",
];

/// The closing remark of the cosmic reason, by element (Fire, Earth, Air, Water) and by
/// task type (CPU-intensive, network, memory-heavy, system, interactive, desktop, critical).
pub const ELEMENT_QUIPS: [[&'static str; 7]; 4] = [
    [
        "CPU burns bright!",
        "packets ignite like solar flares!",
        "RAM blazes with celestial fuel!",
        "kernel ignites with volcanic precision!",
        "your shell crackles with warmth!",
        "pixels dance with fiery grace!",
        "the cosmos holds its breath!",
    ],
    [
        "compilation plods but endures!",
        "packets travel like tectonic plates!",
        "memory grows slow and deep as bedrock!",
        "the kernel stands firm as granite!",
        "your keystrokes echo through stone!",
        "pixels settle, unmoving as mountains!",
        "the foundation holds all things!",
    ],
    [
        "threads drift on cosmic winds!",
        "packets flow like starlight!",
        "heap allocations float on gentle breeze!",
        "daemons whisper through the ether!",
        "your commands ride the celestial zephyr!",
        "windows flutter like butterfly wings!",
        "the vital spark breathes free!",
    ],
    [
        "cycles flow like a mountain stream!",
        "packets ripple through digital tides!",
        "data pools in deep lunar lakes!",
        "the kernel ebbs and flows!",
        "your session swirls in the cosmic ocean!",
        "frames cascade like gentle waterfalls!",
        "the lifeblood of the machine churns!",
    ],
];

/// Words of cosmic wisdom, one for each day of the month in rotation.
pub const COSMIC_WISDOM: [&'static str; 8] = [
    "\"The CPU is the mind, RAM the imagination, and disk the long memory of the \
     machine. Tend them as you would tend your soul.\"",
    "\"Mercury retrograde is not an excuse — it is an explanation. There is a \
     difference, and your coworkers will not appreciate the distinction.\"",
    "\"A process that completes under Mars is forged in fire. A process that \
     completes under Saturn merely completes. Both are worthy.\"",
    "\"The scheduler does not play favorites. The planets, however, absolutely do.\"",
    "\"Even the mightiest kernel panic is written in the stars. This does not make \
     it less catastrophic.\"",
    "\"Jupiter in retrograde is why your Electron app uses 8 GB of RAM. Jupiter \
     direct is why it only uses 6 GB. Plan accordingly.\"",
    "\"The Full Moon brings peak interactivity and also, inexplicably, more Slack \
     notifications. This is not a coincidence.\"",
    "\"Saturn rules structure, discipline, and the /etc directory. Do not modify \
     /etc during a Saturn retrograde. You have been warned.\"",
];

/// Position of an element in the tables: Fire, Earth, Air, Water.
pub open spec fn element_index(e: Element) -> int {
    match e {
        Element::Fire => 0,
        Element::Earth => 1,
        Element::Air => 2,
        Element::Water => 3,
    }
}

pub fn element_slot(e: Element) -> (i: usize)
    ensures
        i == element_index(e),
{
    match e {
        Element::Fire => 0,
        Element::Earth => 1,
        Element::Air => 2,
        Element::Water => 3,
    }
}

/// The text around the sign for the planets whose forecast names only the sign.
pub open spec fn planet_frame(planet: Planet, retrograde: bool, element: Element) -> [&'static str; 2] {
    let r = if retrograde { 1int } else { 0int };
    let e = element_index(element);
    match planet {
        Planet::Mars => MARS_FORECASTS@[r]@[e],
        Planet::Mercury => MERCURY_FORECASTS@[r]@[e],
        Planet::Venus => VENUS_FORECASTS@[r]@[e],
        Planet::Jupiter => JUPITER_FORECASTS@[r]@[e],
        _ => SATURN_FORECASTS@[r]@[e],
    }
}

/// The text after the phase and after the sign in the Moon's forecast.
pub open spec fn moon_frame(retrograde: bool, element: Element) -> [&'static str; 2] {
    if retrograde {
        MOON_RETROGRADE_FORECAST
    } else {
        MOON_FORECASTS@[element_index(element)]
    }
}

/// The Sun's blessing for an hour of the day.
pub open spec fn sun_blessing(hour: int) -> &'static str {
    if 10 <= hour <= 14 {
        SUN_BLESSINGS@[0]
    } else if hour < 6 || hour >= 20 {
        SUN_BLESSINGS@[1]
    } else {
        SUN_BLESSINGS@[2]
    }
}

/// The name of the Moon's phase, or "present" when the phase is unknown.
pub open spec fn phase_or_present(phase: Option<MoonPhase>) -> Seq<char> {
    match phase {
        Some(p) => p.spec_name(),
        None => "present"@,
    }
}

/// The remark on the Moon's phase that closes the Moon's forecast, if the phase is known.
pub open spec fn moon_phase_note(phase: Option<MoonPhase>) -> Seq<char> {
    match phase {
        Some(p) => MOON_PHASE_NOTE@[0]@ + p.spec_name() + MOON_PHASE_NOTE@[1]@,
        None => Seq::empty(),
    }
}

/// The forecast for `planet` standing at `pos`, at hour `hour` of the day (UTC).
pub open spec fn spec_daily_forecast(planet: Planet, pos: PlanetaryPosition, hour: int) -> Seq<char> {
    let sign = pos.sign.spec_name();
    let element = pos.sign.spec_element();
    match planet {
        Planet::Sun => SUN_FORECAST@[0]@ + sign + SUN_FORECAST@[1]@ + sun_blessing(hour)@
            + SUN_FORECAST@[2]@,
        Planet::Moon => {
            let f = moon_frame(pos.retrograde, element);
            "The "@ + phase_or_present(pos.moon_phase) + f@[0]@ + sign + f@[1]@
                + moon_phase_note(pos.moon_phase)
        },
        _ => {
            let f = planet_frame(planet, pos.retrograde, element);
            f@[0]@ + sign + f@[1]@
        },
    }
}

/// Writes the daily forecast for `planet` at `pos`, for the hour `hour` (UTC).
pub fn daily_forecast(planet: Planet, pos: &PlanetaryPosition, hour: u32) -> (s: String)
    ensures
        s@ == spec_daily_forecast(planet, *pos, hour as int),
{
    let sign = pos.sign.name();
    let element = pos.sign.element();
    let e = element_slot(element);
    let mut out = String::new();
    match planet {
        Planet::Sun => {
            let blessing = if 10 <= hour && hour <= 14 {
                SUN_BLESSINGS[0]
            } else if hour < 6 || hour >= 20 {
                SUN_BLESSINGS[1]
            } else {
                SUN_BLESSINGS[2]
            };
            out.append(SUN_FORECAST[0]);
            out.append(sign);
            out.append(SUN_FORECAST[1]);
            out.append(blessing);
            out.append(SUN_FORECAST[2]);
        },
        Planet::Moon => {
            let f = if pos.retrograde {
                MOON_RETROGRADE_FORECAST
            } else {
                MOON_FORECASTS[e]
            };
            out.append("The ");
            match pos.moon_phase {
                Some(p) => out.append(p.name()),
                None => out.append("present"),
            }
            out.append(f[0]);
            out.append(sign);
            out.append(f[1]);
            match pos.moon_phase {
                Some(p) => {
                    out.append(MOON_PHASE_NOTE[0]);
                    out.append(p.name());
                    out.append(MOON_PHASE_NOTE[1]);
                },
                None => {},
            }
        },
        _ => {
            let r: usize = if pos.retrograde { 1 } else { 0 };
            let f = match planet {
                Planet::Mars => MARS_FORECASTS[r][e],
                Planet::Mercury => MERCURY_FORECASTS[r][e],
                Planet::Venus => VENUS_FORECASTS[r][e],
                Planet::Jupiter => JUPITER_FORECASTS[r][e],
                _ => SATURN_FORECASTS[r][e],
            };
            out.append(f[0]);
            out.append(sign);
            out.append(f[1]);
        },
    }
    out
}

} // verus!
