//! Persona feedback: phrase pools addressed by the stage of a command
//! (wake, acknowledge, processing, done, error), with built-in fallbacks
//! for pools that are empty or not yet loaded.

use vstd::prelude::*;

use crate::random::random_index;

verus! {

/// The loaded persona phrase pools.
#[derive(Debug, Clone)]
pub struct JarvisPhrases {
    pub ack: Vec<String>,
    pub processing: Vec<String>,
    pub done: Vec<String>,
    pub error: Vec<String>,
    pub wake: Vec<String>,
}

/// The phrase is one of the pool, or the fallback when the pool is empty.
pub open spec fn drawn_or(pool: Seq<String>, r: Seq<char>, fallback: Seq<char>) -> bool {
    if pool.len() == 0 {
        r == fallback
    } else {
        exists|i: int| 0 <= i < pool.len() && r == #[trigger] pool[i]@
    }
}

impl JarvisPhrases {
    fn get_random<'a>(&self, phrases: &'a Vec<String>) -> (r: &'a str)
        ensures
            drawn_or(phrases@, r@, "Yes, sir."@),
    {
        if phrases.len() == 0 {
            "Yes, sir."
        } else {
            let i = random_index(phrases.len());
            let chosen = phrases[i].as_str();
            proof {
                assert(chosen@ == phrases@[i as int]@);
            }
            chosen
        }
    }

    /// Answer to a wake-word detection.
    pub fn wake(&self) -> (r: &str)
        ensures
            drawn_or(self.wake@, r@, "Yes, sir."@),
    {
        self.get_random(&self.wake)
    }

    /// Acknowledgment of a recognized command.
    pub fn ack(&self) -> (r: &str)
        ensures
            drawn_or(self.ack@, r@, "Yes, sir."@),
    {
        self.get_random(&self.ack)
    }

    /// Announcement that a request is being worked on.
    pub fn processing(&self) -> (r: &str)
        ensures
            drawn_or(self.processing@, r@, "Yes, sir."@),
    {
        self.get_random(&self.processing)
    }

    /// Report of a completed task.
    pub fn done(&self) -> (r: &str)
        ensures
            drawn_or(self.done@, r@, "Yes, sir."@),
    {
        self.get_random(&self.done)
    }

    /// Report of a failure.
    pub fn error(&self) -> (r: &str)
        ensures
            drawn_or(self.error@, r@, "Yes, sir."@),
    {
        self.get_random(&self.error)
    }
}

/// Wake phrase, or its fallback while no pools are loaded.
pub fn get_wake_phrase<'a>(phrases: Option<&'a JarvisPhrases>) -> (r: &'a str)
    ensures
        match phrases {
            Some(p) => drawn_or(p.wake@, r@, "Yes, sir."@),
            None => r@ == "Yes, sir?"@,
        },
{
    match phrases {
        Some(p) => p.wake(),
        None => "Yes, sir?",
    }
}

/// Acknowledgment phrase, or its fallback while no pools are loaded.
pub fn get_ack_phrase<'a>(phrases: Option<&'a JarvisPhrases>) -> (r: &'a str)
    ensures
        match phrases {
            Some(p) => drawn_or(p.ack@, r@, "Yes, sir."@),
            None => r@ == "Yes, sir."@,
        },
{
    match phrases {
        Some(p) => p.ack(),
        None => "Yes, sir.",
    }
}

/// In-progress phrase, or its fallback while no pools are loaded.
pub fn get_processing_phrase<'a>(phrases: Option<&'a JarvisPhrases>) -> (r: &'a str)
    ensures
        match phrases {
            Some(p) => drawn_or(p.processing@, r@, "Yes, sir."@),
            None => r@ == "On it, sir."@,
        },
{
    match phrases {
        Some(p) => p.processing(),
        None => "On it, sir.",
    }
}

/// Completion phrase, or its fallback while no pools are loaded.
pub fn get_done_phrase<'a>(phrases: Option<&'a JarvisPhrases>) -> (r: &'a str)
    ensures
        match phrases {
            Some(p) => drawn_or(p.done@, r@, "Yes, sir."@),
            None => r@ == "Completed, sir."@,
        },
{
    match phrases {
        Some(p) => p.done(),
        None => "Completed, sir.",
    }
}

/// Failure phrase, or its fallback while no pools are loaded.
pub fn get_error_phrase<'a>(phrases: Option<&'a JarvisPhrases>) -> (r: &'a str)
    ensures
        match phrases {
            Some(p) => drawn_or(p.error@, r@, "Yes, sir."@),
            None => r@ == "Sir, an error has occurred."@,
        },
{
    match phrases {
        Some(p) => p.error(),
        None => "Sir, an error has occurred.",
    }
}

} // verus!
