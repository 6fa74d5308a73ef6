//! The temperature sensor, read through a wrapper that reports a reading
//! only when it differs from the one before.

use crate::uom::temp::{Temperature, F};
use std::marker::PhantomData;
use vstd::prelude::*;

verus! {

/// Something that wants to hear of each new temperature.
pub trait TempListener {
    fn on_temp_updated(&mut self, temp: Temperature<F>);
}

/// A source of temperature readings.
pub trait TempReader {
    /// The temperature now, or none where it could not be read.
    fn get_temp() -> Option<Temperature<F>>;
}

/// What a sensor that last saw `last` remembers after a reading: the
/// reading, or what it saw before where the reading failed.
pub open spec fn remembered(last: Option<Temperature<F>>, reading: Option<Temperature<F>>) -> Option<
    Temperature<F>,
> {
    match reading {
        Some(temp) => Some(temp),
        None => last,
    }
}

/// What a sensor that last saw `last` reports after a reading: the
/// temperature where it is new, and nothing where the reading failed.
pub open spec fn reported(last: Option<Temperature<F>>, reading: Option<Temperature<F>>) -> Option<
    Temperature<F>,
> {
    match reading {
        Some(temp) => report(last, temp),
        None => None,
    }
}

/// What a sensor that last saw `last` reports when it reads `temp`: the
/// reading, unless it is the one that was seen last.
pub open spec fn report(last: Option<Temperature<F>>, temp: Temperature<F>) -> Option<
    Temperature<F>,
> {
    match last {
        Some(seen) => if seen@ == temp@ {
            None
        } else {
            Some(temp)
        },
        None => Some(temp),
    }
}

/// A sensor that remembers its last reading.
pub struct TempSensor<R> {
    last_temp: Option<Temperature<F>>,
    reader: PhantomData<R>,
}

impl<R> TempSensor<R> where R: TempReader {
    /// The reading that was taken last, if any was.
    pub closed spec fn last_temp(&self) -> Option<Temperature<F>> {
        self.last_temp
    }

    /// A sensor that has read nothing yet.
    pub fn new() -> (res: TempSensor<R>)
        ensures
            res.last_temp() is None,
    {
        TempSensor { last_temp: None, reader: PhantomData }
    }

    /// Takes a reading and reports it if it is new: the first reading always
    /// is, a later one where it differs from the reading before. A reading
    /// that fails reports nothing and leaves the sensor as it was.
    pub fn get_updated_temp(&mut self) -> (res: Option<Temperature<F>>)
        ensures
            exists|reading: Option<Temperature<F>>|
                {
                    &&& final(self).last_temp() == #[trigger] remembered(
                        old(self).last_temp(),
                        reading,
                    )
                    &&& res == reported(old(self).last_temp(), reading)
                },
    {
        let reading = R::get_temp();
        let res = match reading {
            Some(temp) => self.observe(temp),
            None => None,
        };
        assert(self.last_temp() == remembered(old(self).last_temp(), reading));
        res
    }

    /// Takes `temp` as the reading and reports it if it is new.
    pub fn observe(&mut self, temp: Temperature<F>) -> (res: Option<Temperature<F>>)
        ensures
            final(self).last_temp() == Some(temp),
            res == report(old(self).last_temp(), temp),
    {
        let changed = match self.last_temp {
            Some(last_temp) => last_temp.0 != temp.0,
            None => true,
        };
        self.last_temp = Some(temp);
        if changed {
            Some(temp)
        } else {
            None
        }
    }
}

} // verus!
