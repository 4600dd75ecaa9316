use vstd::prelude::*;

verus! {

/// The place of the one active recogniser. A switch builds the new
/// recogniser first and installs it only when the build succeeded, so a
/// failed build never leaves a half-made recogniser active.
pub struct EngineSlot<E> {
    active: Option<E>,
}

impl<E> EngineSlot<E> {
    /// The active recogniser, if any.
    pub closed spec fn current(&self) -> Option<E> {
        self.active
    }

    /// A slot with no active recogniser.
    pub fn empty() -> (r: Self)
        ensures
            r.current() is None,
    {
        EngineSlot { active: None }
    }

    /// Installs `built` when the build succeeded, replacing the active
    /// recogniser whole; a failed build changes nothing and its error is
    /// handed back.
    pub fn install(&mut self, built: Result<E, String>) -> (r: Result<(), String>)
        ensures
            match built {
                Ok(e) => r is Ok && final(self).current() == Some(e),
                Err(msg) => r == Err::<(), String>(msg) && final(self).current() == old(
                    self,
                ).current(),
            },
    {
        match built {
            Ok(engine) => {
                self.active = Some(engine);
                Ok(())
            },
            Err(msg) => Err(msg),
        }
    }

    /// Whether a recogniser is active.
    pub fn is_ready(&self) -> (r: bool)
        ensures
            r == self.current() is Some,
    {
        self.active.is_some()
    }

    /// The active recogniser, if any.
    pub fn get(&self) -> (r: Option<&E>)
        ensures
            match r {
                Some(e) => self.current() == Some(*e),
                None => self.current() is None,
            },
    {
        match &self.active {
            Some(e) => Some(e),
            None => None,
        }
    }
}

} // verus!
