# any_palette

A desktop tool that shows the prominent colours of an image. The verified
library (`src/`) holds the extraction settings and their labels, the
decisions taken on an image before clustering (shrinking, the pixel buffer,
decoding dropped bytes), the rendering of swatches (`#RRGGBB` codes,
population captions, error messages), and the extraction workflow of the
window as a state machine. `app/` holds the window, file dialogs, the
clipboard, worker threads, and the palette extractor's calls, whose types
are generic over a floating-point number.
