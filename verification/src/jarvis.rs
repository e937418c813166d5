//! Feedback phrase pools, one pool per kind of acknowledgment; each request
//! draws one phrase of the matching pool at random.

use vstd::prelude::*;

use crate::random::random_index;

verus! {

/// The configured phrase pools.
#[derive(Debug, Clone)]
pub struct JarvisPhrases {
    /// Acknowledging a recognized command.
    pub ack: Vec<String>,
    /// Announcing that a request is being worked on.
    pub processing: Vec<String>,
    /// Reporting a completed task.
    pub done: Vec<String>,
    /// Reporting a failure.
    pub error: Vec<String>,
    /// Answering a wake-word detection.
    pub wake: Vec<String>,
}

/// The drawn phrase is one of the pool; an empty pool yields the empty
/// string.
pub open spec fn drawn_from(pool: Seq<String>, r: Seq<char>) -> bool {
    if pool.len() == 0 {
        r == Seq::<char>::empty()
    } else {
        exists|i: int| 0 <= i < pool.len() && r == #[trigger] pool[i]@
    }
}

impl JarvisPhrases {
    fn get_random<'a>(&self, phrases: &'a Vec<String>) -> (r: &'a str)
        ensures
            drawn_from(phrases@, r@),
    {
        if phrases.len() == 0 {
            let empty = "";
            proof {
                reveal_strlit("");
                assert(empty@ =~= Seq::<char>::empty());
            }
            empty
        } else {
            let i = random_index(phrases.len());
            let chosen = phrases[i].as_str();
            proof {
                assert(chosen@ == phrases@[i as int]@);
            }
            chosen
        }
    }

    /// One random acknowledgment phrase.
    pub fn get_random_ack(&self) -> (r: &str)
        ensures
            drawn_from(self.ack@, r@),
    {
        self.get_random(&self.ack)
    }

    /// One random in-progress phrase.
    pub fn get_random_processing(&self) -> (r: &str)
        ensures
            drawn_from(self.processing@, r@),
    {
        self.get_random(&self.processing)
    }

    /// One random completion phrase.
    pub fn get_random_done(&self) -> (r: &str)
        ensures
            drawn_from(self.done@, r@),
    {
        self.get_random(&self.done)
    }

    /// One random failure phrase.
    pub fn get_random_error(&self) -> (r: &str)
        ensures
            drawn_from(self.error@, r@),
    {
        self.get_random(&self.error)
    }

    /// One random wake acknowledgment.
    pub fn get_random_wake(&self) -> (r: &str)
        ensures
            drawn_from(self.wake@, r@),
    {
        self.get_random(&self.wake)
    }
}

impl Default for JarvisPhrases {
    /// The built-in phrase set: three phrases in every pool.
    fn default() -> (r: JarvisPhrases)
        ensures
            r.ack@.len() == 3,
            r.processing@.len() == 3,
            r.done@.len() == 3,
            r.error@.len() == 3,
            r.wake@.len() == 3,
            r.ack@[0]@ == "Да, сэр."@,
            r.ack@[1]@ == "Слушаю, сэр."@,
            r.ack@[2]@ == "Готов к выполнению, сэр."@,
            r.processing@[0]@ == "Работаю над этим, сэр."@,
            r.processing@[1]@ == "Выполняю, сэр."@,
            r.processing@[2]@ == "Обрабатываю ваш запрос, сэр."@,
            r.done@[0]@ == "Задача выполнена, сэр."@,
            r.done@[1]@ == "Готово, сэр."@,
            r.done@[2]@ == "Все сделано, сэр."@,
            r.error@[0]@ == "Произошла ошибка, сэр."@,
            r.error@[1]@ == "Мне нужно уточнение, сэр."@,
            r.error@[2]@ == "Это действие недоступно, сэр."@,
            r.wake@[0]@ == "Я вас слушаю, сэр."@,
            r.wake@[1]@ == "Да, сэр?"@,
            r.wake@[2]@ == "На связи, сэр."@,
    {
        let mut ack: Vec<String> = Vec::new();
        ack.push(String::from_str("Да, сэр."));
        ack.push(String::from_str("Слушаю, сэр."));
        ack.push(String::from_str("Готов к выполнению, сэр."));
        let mut processing: Vec<String> = Vec::new();
        processing.push(String::from_str("Работаю над этим, сэр."));
        processing.push(String::from_str("Выполняю, сэр."));
        processing.push(String::from_str("Обрабатываю ваш запрос, сэр."));
        let mut done: Vec<String> = Vec::new();
        done.push(String::from_str("Задача выполнена, сэр."));
        done.push(String::from_str("Готово, сэр."));
        done.push(String::from_str("Все сделано, сэр."));
        let mut error: Vec<String> = Vec::new();
        error.push(String::from_str("Произошла ошибка, сэр."));
        error.push(String::from_str("Мне нужно уточнение, сэр."));
        error.push(String::from_str("Это действие недоступно, сэр."));
        let mut wake: Vec<String> = Vec::new();
        wake.push(String::from_str("Я вас слушаю, сэр."));
        wake.push(String::from_str("Да, сэр?"));
        wake.push(String::from_str("На связи, сэр."));
        JarvisPhrases { ack, processing, done, error, wake }
    }
}

} // verus!
