use vstd::prelude::*;

verus! {

/// The decorative emoji sets shown around timers, one list per timer
/// state, each non-empty so that a random pick is always possible.
pub struct Emojis {
    pub work: Vec<&'static str>,
    pub break_short: Vec<&'static str>,
    pub break_long: Vec<&'static str>,
    pub success: Vec<&'static str>,
    pub rust: Vec<&'static str>,
}

/// The fixed emoji table for work intervals.
pub open spec fn work_emoji_table() -> Seq<Seq<char>> {
    seq!["🍅"@, "💻"@, "📝"@, "🔨"@, "⚙️"@, "🧠"@, "🦀"@, "🚀"@, "⏳"@, "🔍"@]
}

/// The fixed emoji table for short breaks.
pub open spec fn short_break_emoji_table() -> Seq<Seq<char>> {
    seq!["☕"@, "🍵"@, "🧘"@, "🌱"@, "🌞"@, "💆"@, "🦀"@, "🎵"@, "🍃"@, "🌈"@]
}

/// The fixed emoji table for long breaks.
pub open spec fn long_break_emoji_table() -> Seq<Seq<char>> {
    seq!["🌴"@, "🏖️"@, "🎮"@, "📚"@, "🍦"@, "🦀"@, "🎨"@, "🌿"@, "🧁"@, "🎬"@]
}

/// The fixed emoji table for completed intervals.
pub open spec fn success_emoji_table() -> Seq<Seq<char>> {
    seq!["✅"@, "🎉"@, "🏆"@, "💯"@, "🌟"@, "🙌"@, "🦀"@, "🥳"@, "💪"@, "🌺"@]
}

/// Builds the emoji sets: exactly the fixed tables, with the one crab in
/// the rust list.
pub fn init_emojis() -> (e: Emojis)
    ensures
        e.work.deep_view() == work_emoji_table(),
        e.break_short.deep_view() == short_break_emoji_table(),
        e.break_long.deep_view() == long_break_emoji_table(),
        e.success.deep_view() == success_emoji_table(),
        e.rust.deep_view() == seq!["🦀"@],
        e.work@.len() == 10,
        e.break_short@.len() == 10,
        e.break_long@.len() == 10,
        e.success@.len() == 10,
        e.rust@.len() == 1,
{
    let e = Emojis {
        work: vec!["🍅", "💻", "📝", "🔨", "⚙️", "🧠", "🦀", "🚀", "⏳", "🔍"],
        break_short: vec!["☕", "🍵", "🧘", "🌱", "🌞", "💆", "🦀", "🎵", "🍃", "🌈"],
        break_long: vec!["🌴", "🏖️", "🎮", "📚", "🍦", "🦀", "🎨", "🌿", "🧁", "🎬"],
        success: vec!["✅", "🎉", "🏆", "💯", "🌟", "🙌", "🦀", "🥳", "💪", "🌺"],
        rust: vec!["🦀"],
    };
    proof {
        assert(e.work.deep_view() =~= work_emoji_table());
        assert(e.break_short.deep_view() =~= short_break_emoji_table());
        assert(e.break_long.deep_view() =~= long_break_emoji_table());
        assert(e.success.deep_view() =~= success_emoji_table());
        assert(e.rust.deep_view() =~= seq!["🦀"@]);
    }
    e
}

/// The motivational phrases shown around work and break intervals, one
/// list per moment, each non-empty so that a random pick is always
/// possible.
pub struct Motivations {
    pub start_work: Vec<&'static str>,
    pub during_work: Vec<&'static str>,
    pub end_work: Vec<&'static str>,
    pub start_break: Vec<&'static str>,
    pub end_break: Vec<&'static str>,
}

/// The fixed phrases shown when a work interval starts.
pub open spec fn start_work_table() -> Seq<Seq<char>> {
    seq![
        "Time to focus! You've got this!"@,
        "Let's make the most of these minutes!"@,
        "The Rust crab believes in you!"@,
        "Deep work mode: engaged!"@,
        "Your future self will thank you for focusing now."@,
    ]
}

/// The fixed placeholder shown while a work interval runs: five copies of
/// the dots.
pub open spec fn during_work_table() -> Seq<Seq<char>> {
    seq!["...."@, "...."@, "...."@, "...."@, "...."@]
}

/// The fixed phrases shown when a work interval completes.
pub open spec fn end_work_table() -> Seq<Seq<char>> {
    seq![
        "Great job! Take a well-deserved break."@,
        "Pomodoro complete! The 🦀 is proud of you!"@,
        "You've earned your rest!"@,
        "Excellent focus session!"@,
        "Progress made! Time to recharge."@,
    ]
}

/// The fixed phrases shown when a break starts.
pub open spec fn start_break_table() -> Seq<Seq<char>> {
    seq![
        "Break time! Rest your mind."@,
        "The 🦀 says: time to relax!"@,
        "Refresh and recharge!"@,
        "Stretch, hydrate, breathe!"@,
        "Short breaks make long coding sessions possible."@,
    ]
}

/// The fixed phrases shown when a break ends.
pub open spec fn end_break_table() -> Seq<Seq<char>> {
    seq![
        "Break's over! Ready to dive back in?"@,
        "Time to get back to it! The 🦀 is ready!"@,
        "Refreshed and ready to go!"@,
        "Back to making progress!"@,
        "Let's continue building amazing things!"@,
    ]
}

/// Builds the motivational phrase sets: exactly the fixed tables.
pub fn init_motivations() -> (m: Motivations)
    ensures
        m.start_work.deep_view() == start_work_table(),
        m.during_work.deep_view() == during_work_table(),
        m.end_work.deep_view() == end_work_table(),
        m.start_break.deep_view() == start_break_table(),
        m.end_break.deep_view() == end_break_table(),
        m.start_work@.len() == 5,
        m.during_work@.len() == 5,
        m.end_work@.len() == 5,
        m.start_break@.len() == 5,
        m.end_break@.len() == 5,
{
    let m = Motivations {
        start_work: vec![
            "Time to focus! You've got this!",
            "Let's make the most of these minutes!",
            "The Rust crab believes in you!",
            "Deep work mode: engaged!",
            "Your future self will thank you for focusing now.",
        ],
        during_work: vec!["....", "....", "....", "....", "...."],
        end_work: vec![
            "Great job! Take a well-deserved break.",
            "Pomodoro complete! The 🦀 is proud of you!",
            "You've earned your rest!",
            "Excellent focus session!",
            "Progress made! Time to recharge.",
        ],
        start_break: vec![
            "Break time! Rest your mind.",
            "The 🦀 says: time to relax!",
            "Refresh and recharge!",
            "Stretch, hydrate, breathe!",
            "Short breaks make long coding sessions possible.",
        ],
        end_break: vec![
            "Break's over! Ready to dive back in?",
            "Time to get back to it! The 🦀 is ready!",
            "Refreshed and ready to go!",
            "Back to making progress!",
            "Let's continue building amazing things!",
        ],
    };
    proof {
        assert(m.start_work.deep_view() =~= start_work_table());
        assert(m.during_work.deep_view() =~= during_work_table());
        assert(m.end_work.deep_view() =~= end_work_table());
        assert(m.start_break.deep_view() =~= start_break_table());
        assert(m.end_break.deep_view() =~= end_break_table());
    }
    m
}

/// The fixed tip table of the `tip` command.
pub open spec fn tips_table() -> Seq<Seq<char>> {
    seq![
        "The Pomodoro Technique works best when you fully commit to the task during work periods."@,
        "Keep a list of small tasks to tackle during short breaks to maintain productivity momentum."@,
        "Physical activity during breaks (like stretching) can boost your energy for the next Pomodoro."@,
        "Try different Pomodoro lengths to find what works best for you - not everyone is optimal at 25 minutes."@,
        "Use Pomodoros to estimate task completion times by tracking how many you need for similar tasks."@,
        "The 'rule of three' suggests focusing on completing just three main tasks per day."@,
        "Consider using noise-cancelling headphones or white noise during Pomodoros to improve focus."@,
        "Hydration improves cognitive function - keep water nearby during your work sessions."@,
        "For creative tasks, sometimes a longer Pomodoro (40-60 minutes) works better than the standard 25."@,
        "Track your completed Pomodoros to visualize your productivity trends over time."@,
        "The Rust crab says: sometimes your most productive Pomodoro isn't the one where you write the most code!"@,
    ]
}

/// The productivity tips of the `tip` command: exactly the fixed table.
pub fn productivity_tips() -> (tips: Vec<&'static str>)
    ensures
        tips.deep_view() == tips_table(),
        tips@.len() == 11,
{
    let tips = vec![
        "The Pomodoro Technique works best when you fully commit to the task during work periods.",
        "Keep a list of small tasks to tackle during short breaks to maintain productivity momentum.",
        "Physical activity during breaks (like stretching) can boost your energy for the next Pomodoro.",
        "Try different Pomodoro lengths to find what works best for you - not everyone is optimal at 25 minutes.",
        "Use Pomodoros to estimate task completion times by tracking how many you need for similar tasks.",
        "The 'rule of three' suggests focusing on completing just three main tasks per day.",
        "Consider using noise-cancelling headphones or white noise during Pomodoros to improve focus.",
        "Hydration improves cognitive function - keep water nearby during your work sessions.",
        "For creative tasks, sometimes a longer Pomodoro (40-60 minutes) works better than the standard 25.",
        "Track your completed Pomodoros to visualize your productivity trends over time.",
        "The Rust crab says: sometimes your most productive Pomodoro isn't the one where you write the most code!",
    ];
    proof {
        assert(tips.deep_view() =~= tips_table());
    }
    tips
}

/// Relies on rand::Rng::gen_range over the range 0..n, which returns a
/// value of that range and panics only when the range is empty.
#[verifier::external_body]
fn random_below(n: usize) -> (r: usize)
    requires
        n > 0,
    ensures
        r < n,
{
    rand::Rng::gen_range(&mut rand::thread_rng(), 0..n)
}

/// Picks a random element of the list; an empty list falls back to the
/// empty string.
pub fn random_from(options: &Vec<&'static str>) -> (r: &'static str)
    ensures
        options@.len() == 0 ==> r@ == Seq::<char>::empty(),
        options@.len() > 0 ==> exists|i: int| 0 <= i < options@.len() && r == options@[i],
{
    if options.len() == 0 {
        proof {
            reveal_strlit("");
            assert(""@ =~= Seq::<char>::empty());
        }
        ""
    } else {
        let i = random_below(options.len());
        let r = options[i];
        proof {
            assert(0 <= (i as int) && (i as int) < options@.len() && r == options@[i as int]);
        }
        r
    }
}

} // verus!
