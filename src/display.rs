//! The animation loop: a current face easing frame by frame towards a
//! target face.

use crate::drawing::{face_commands, DrawCommand};
use crate::element::{eased_elements, KerfurElements};
use crate::expression::KerfurExpression;
use vstd::prelude::*;

verus! {

/// Rotation a swirl eye gains each frame, in milliradians.
pub const SWIRL_STEP: u32 = 100;

/// A full turn, in milliradians.
pub const FULL_TURN: u32 = 6283;

/// A display that animates a face. It owns the output device `D`, which the
/// renderer draws the listed shapes on, the face currently shown, the face
/// it is easing towards, and the rotation phase that spins swirl eyes.
pub struct KerfurDisplay<D> {
    display: D,
    current: KerfurElements,
    target: KerfurElements,
    animating: bool,
    swirl_phase: u32,
}

impl<D> KerfurDisplay<D> {
    /// The face currently shown.
    pub closed spec fn current_face(&self) -> KerfurElements {
        self.current
    }

    /// The face being eased towards.
    pub closed spec fn target_face(&self) -> KerfurElements {
        self.target
    }

    /// Whether the next frame moves the current face.
    pub closed spec fn animating(&self) -> bool {
        self.animating
    }

    /// The output device.
    pub closed spec fn device(&self) -> D {
        self.display
    }

    /// The extra rotation given to swirl eyes when drawn, in milliradians.
    pub closed spec fn phase(&self) -> u32 {
        self.swirl_phase
    }

    /// The shown face can be drawn, and so can every face on the way to the
    /// target: the target's whisker lines fit the shown face's whisker fan.
    /// A display that is not animating shows its target.
    pub open spec fn wf(&self) -> bool {
        &&& self.current_face().in_frame()
        &&& self.target_face().fits_fan_of(self.current_face())
        &&& !self.animating() ==> self.current_face() == self.target_face()
        &&& self.phase() < FULL_TURN
    }

    /// A display showing `expression`, at rest.
    pub fn new<E: KerfurExpression>(display: D, expression: E) -> (r: Self)
        requires
            expression.face().in_frame(),
        ensures
            r.wf(),
            r.current_face() == expression.face(),
            r.target_face() == expression.face(),
            !r.animating(),
            r.device() == display,
            r.phase() == 0,
    {
        Self::new_with_elements(display, expression.into_elements())
    }

    /// A display showing `elements`, at rest.
    pub fn new_with_elements(display: D, elements: KerfurElements) -> (r: Self)
        requires
            elements.in_frame(),
        ensures
            r.wf(),
            r.current_face() == elements,
            r.target_face() == elements,
            !r.animating(),
            r.device() == display,
            r.phase() == 0,
    {
        KerfurDisplay {
            display,
            current: elements,
            target: elements,
            animating: false,
            swirl_phase: 0,
        }
    }

    /// The output device.
    pub fn display(&self) -> (r: &D)
        ensures
            *r == self.device(),
    {
        &self.display
    }

    /// The output device, for changes.
    pub fn display_mut(&mut self) -> (r: &mut D)
        ensures
            *r == old(self).device(),
            final(self).device() == *final(r),
            final(self).current_face() == old(self).current_face(),
            final(self).target_face() == old(self).target_face(),
            final(self).animating() == old(self).animating(),
            final(self).phase() == old(self).phase(),
    {
        &mut self.display
    }

    /// The face currently shown.
    pub fn get_expression(&self) -> (r: KerfurElements)
        ensures
            r == self.current_face(),
    {
        self.current
    }

    /// The face being eased towards.
    pub fn get_expression_target(&self) -> (r: KerfurElements)
        ensures
            r == self.target_face(),
    {
        self.target
    }

    /// Sets the face to ease towards. The shown face does not change until
    /// the next frame.
    pub fn set_expression<E: KerfurExpression>(&mut self, expression: E)
        requires
            old(self).wf(),
            expression.face().fits_fan_of(old(self).current_face()),
        ensures
            final(self).wf(),
            final(self).target_face() == expression.face(),
            final(self).current_face() == old(self).current_face(),
            final(self).animating(),
            final(self).device() == old(self).device(),
            final(self).phase() == old(self).phase(),
    {
        self.animating = true;
        self.target = expression.into_elements();
    }

    /// Replaces the shown face at once; the target stays, and the display
    /// goes on easing towards it.
    pub fn set_expression_immediate<E: KerfurExpression>(&mut self, expression: E)
        requires
            old(self).wf(),
            expression.face().in_frame(),
            old(self).target_face().fits_fan_of(expression.face()),
        ensures
            final(self).wf(),
            final(self).current_face() == expression.face(),
            final(self).target_face() == old(self).target_face(),
            final(self).animating(),
            final(self).device() == old(self).device(),
            final(self).phase() == old(self).phase(),
    {
        self.animating = true;
        self.current = expression.into_elements();
    }

    /// Whether the display is easing between faces.
    pub fn is_animating(&self) -> (r: bool)
        ensures
            r == self.animating(),
    {
        self.animating
    }

    /// The extra rotation to give swirl eyes when drawing this frame, in
    /// milliradians.
    pub fn swirl_phase(&self) -> (r: u32)
        ensures
            r == self.phase(),
    {
        self.swirl_phase
    }

    /// Advances one frame and lists the shapes of the face to show. When
    /// animating, the shown face takes one step of `tick` thousandths of a
    /// pixel towards the target, and the display stays animating until the
    /// two are equal. The shapes are listed on every frame, moving or not.
    /// Whatever the tick, the swirl phase turns by [`SWIRL_STEP`].
    pub fn draw(&mut self, tick: u32) -> (r: Vec<DrawCommand>)
        requires
            old(self).wf(),
        ensures
            final(self).wf(),
            final(self).target_face() == old(self).target_face(),
            final(self).device() == old(self).device(),
            old(self).animating() ==> final(self).current_face() == eased_elements(
                old(self).current_face(),
                old(self).target_face(),
                tick as int,
            ),
            old(self).animating() ==> (final(self).animating() <==> final(self).current_face()
                != final(self).target_face()),
            !old(self).animating() ==> final(self).current_face() == old(self).current_face()
                && !final(self).animating(),
            r@ == face_commands(final(self).current_face()),
            final(self).phase() == (old(self).phase() + SWIRL_STEP) % (FULL_TURN as int),
    {
        self.swirl_phase = (self.swirl_phase + SWIRL_STEP) % FULL_TURN;
        if self.animating {
            self.current.interpolate(&self.target, tick);
            proof {
                crate::element::lemma_eased_elements_in_frame(
                    old(self).current,
                    old(self).target,
                    tick as int,
                );
            }
            self.animating = self.current != self.target;
        }
        self.current.draw()
    }
}

} // verus!
